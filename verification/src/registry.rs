use vstd::prelude::*;
use vstd::hash_set::StringHashSet;
use crate::json::{ArrayBuilder, Json, JsonModel, ObjectBuilder};

verus! {

/// The URI of the configuration resource.
pub const CONFIG_URI: &'static str = "m3u8://config";

/// The URI of the cache statistics resource.
pub const CACHE_STATS_URI: &'static str = "m3u8://cache/stats";

/// A tool that a client may call: its name, what it does, and the shape of
/// its arguments.
#[derive(Debug, Clone, PartialEq, Eq)]
pub struct Tool {
    pub name: String,
    pub description: Option<String>,
    pub input_schema: Json,
}

/// A read-only data endpoint, addressed by its URI.
#[derive(Debug, Clone, PartialEq, Eq)]
pub struct Resource {
    pub uri: String,
    pub name: String,
    pub description: Option<String>,
    pub mime_type: Option<String>,
}

pub struct ToolModel {
    pub name: Seq<char>,
    pub description: Option<Seq<char>>,
    pub input_schema: JsonModel,
}

pub struct ResourceModel {
    pub uri: Seq<char>,
    pub name: Seq<char>,
    pub description: Option<Seq<char>>,
    pub mime_type: Option<Seq<char>>,
}

/// The characters of an optional string.
pub open spec fn opt_text(s: Option<String>) -> Option<Seq<char>> {
    match s {
        Some(t) => Some(t@),
        None => None,
    }
}

/// A copy of an optional string.
pub fn copy_opt(s: &Option<String>) -> (out: Option<String>)
    ensures
        opt_text(out) == opt_text(*s),
{
    match s {
        Some(t) => Some(t.clone()),
        None => None,
    }
}

impl Tool {
    pub open spec fn view(&self) -> ToolModel {
        ToolModel {
            name: self.name@,
            description: opt_text(self.description),
            input_schema: self.input_schema@,
        }
    }

    /// A copy that stands for the same tool.
    pub fn duplicate(&self) -> (copy: Tool)
        ensures
            copy@ == self@,
    {
        Tool {
            name: self.name.clone(),
            description: copy_opt(&self.description),
            input_schema: self.input_schema.duplicate(),
        }
    }
}

impl Resource {
    pub open spec fn view(&self) -> ResourceModel {
        ResourceModel {
            uri: self.uri@,
            name: self.name@,
            description: opt_text(self.description),
            mime_type: opt_text(self.mime_type),
        }
    }

    /// A copy that stands for the same resource.
    pub fn duplicate(&self) -> (copy: Resource)
        ensures
            copy@ == self@,
    {
        Resource {
            uri: self.uri.clone(),
            name: self.name.clone(),
            description: copy_opt(&self.description),
            mime_type: copy_opt(&self.mime_type),
        }
    }
}

pub open spec fn tools_model(tools: Seq<Tool>) -> Seq<ToolModel> {
    Seq::new(tools.len(), |i: int| tools[i]@)
}

pub open spec fn resources_model(resources: Seq<Resource>) -> Seq<ResourceModel> {
    Seq::new(resources.len(), |i: int| resources[i]@)
}

/// The names of an allowlist.
pub open spec fn names_model(names: Seq<String>) -> Seq<Seq<char>> {
    Seq::new(names.len(), |i: int| names[i]@)
}

/// A parameter of the given JSON type.
pub open spec fn param_model(kind: Seq<char>, description: Seq<char>) -> JsonModel {
    JsonModel::Object(
        Seq::empty()
            .push(("type"@, JsonModel::Text(kind)))
            .push(("description"@, JsonModel::Text(description))),
    )
}

/// A parameter with the value it takes where the caller gives none.
pub open spec fn param_with_default_model(
    kind: Seq<char>,
    description: Seq<char>,
    fallback: JsonModel,
) -> JsonModel {
    JsonModel::Object(
        Seq::empty()
            .push(("type"@, JsonModel::Text(kind)))
            .push(("description"@, JsonModel::Text(description)))
            .push(("default"@, fallback)),
    )
}

/// The schema of an argument object with these properties, none required.
pub open spec fn schema_model(properties: Seq<(Seq<char>, JsonModel)>) -> JsonModel {
    JsonModel::Object(
        Seq::empty()
            .push(("type"@, JsonModel::Text("object"@)))
            .push(("properties"@, JsonModel::Object(properties))),
    )
}

/// The schema of an argument object with these properties, of which the
/// listed ones are required.
pub open spec fn schema_requiring_model(
    properties: Seq<(Seq<char>, JsonModel)>,
    required: Seq<JsonModel>,
) -> JsonModel {
    JsonModel::Object(
        Seq::empty()
            .push(("type"@, JsonModel::Text("object"@)))
            .push(("properties"@, JsonModel::Object(properties)))
            .push(("required"@, JsonModel::Array(required))),
    )
}

fn param(kind: &str, description: &str) -> (j: Json)
    ensures
        j@ == param_model(kind@, description@),
{
    ObjectBuilder::new().with("type", Json::text(kind)).with(
        "description",
        Json::text(description),
    ).build()
}

fn param_with_default(kind: &str, description: &str, fallback: Json) -> (j: Json)
    ensures
        j@ == param_with_default_model(kind@, description@, fallback@),
{
    ObjectBuilder::new().with("type", Json::text(kind)).with(
        "description",
        Json::text(description),
    ).with("default", fallback).build()
}

fn schema(properties: ObjectBuilder) -> (j: Json)
    ensures
        j@ == schema_model(properties@),
{
    ObjectBuilder::new().with("type", Json::text("object")).with(
        "properties",
        properties.build(),
    ).build()
}

fn schema_requiring(properties: ObjectBuilder, required: ArrayBuilder) -> (j: Json)
    ensures
        j@ == schema_requiring_model(properties@, required@),
{
    ObjectBuilder::new().with("type", Json::text("object")).with(
        "properties",
        properties.build(),
    ).with("required", required.build()).build()
}

fn tool(name: &str, description: &str, input_schema: Json) -> (t: Tool)
    ensures
        t@ == (ToolModel {
            name: name@,
            description: Some(description@),
            input_schema: input_schema@,
        }),
{
    Tool {
        name: String::from_str(name),
        description: Some(String::from_str(description)),
        input_schema,
    }
}

pub open spec fn set_url_tool_model() -> ToolModel {
    ToolModel {
        name: "m3u8_set_url"@,
        description: Some("Set the current m3u8 URL in the UI"@),
        input_schema: schema_requiring_model(
            Seq::empty()
                .push(("url"@, param_model("string"@, "URL of the m3u8 stream to set in the UI"@))),
            Seq::empty().push(JsonModel::Text("url"@)),
        ),
    }
}

pub open spec fn get_url_tool_model() -> ToolModel {
    ToolModel {
        name: "m3u8_get_url"@,
        description: Some("Get the current m3u8 URL from the UI"@),
        input_schema: schema_model(Seq::empty()),
    }
}

pub open spec fn parse_tool_model() -> ToolModel {
    ToolModel {
        name: "m3u8_parse"@,
        description: Some("Parse an m3u8 playlist from URL or content"@),
        input_schema: schema_model(
            Seq::empty()
                .push(("url"@, param_model("string"@, "URL of the m3u8 playlist"@)))
                .push(
                    (
                        "content"@,
                        param_model("string"@, "Raw m3u8 content (if URL not provided)"@),
                    ),
                ),
        ),
    }
}

pub open spec fn download_tool_model() -> ToolModel {
    ToolModel {
        name: "m3u8_download"@,
        description: Some("Download m3u8 stream using FFmpeg"@),
        input_schema: schema_requiring_model(
            Seq::empty()
                .push(("url"@, param_model("string"@, "URL of the m3u8 stream"@)))
                .push(("output_path"@, param_model("string"@, "Output file path (required)"@)))
                .push(
                    (
                        "format"@,
                        param_with_default_model(
                            "string"@,
                            "Output format (mp4, mkv, ts)"@,
                            JsonModel::Text("mp4"@),
                        ),
                    ),
                ),
            Seq::empty().push(JsonModel::Text("url"@)).push(JsonModel::Text("output_path"@)),
        ),
    }
}

pub open spec fn convert_tool_model() -> ToolModel {
    ToolModel {
        name: "m3u8_convert"@,
        description: Some("Convert video to HLS format"@),
        input_schema: schema_requiring_model(
            Seq::empty()
                .push(("input_path"@, param_model("string"@, "Input video file path"@)))
                .push(("output_dir"@, param_model("string"@, "Output directory for HLS files"@)))
                .push(
                    (
                        "segment_duration"@,
                        param_with_default_model(
                            "number"@,
                            "Segment duration in seconds"@,
                            JsonModel::Number("10"@),
                        ),
                    ),
                )
                .push(
                    (
                        "playlist_type"@,
                        param_with_default_model(
                            "string"@,
                            "Playlist type (vod or event)"@,
                            JsonModel::Text("vod"@),
                        ),
                    ),
                ),
            Seq::empty().push(JsonModel::Text("input_path"@)).push(JsonModel::Text("output_dir"@)),
        ),
    }
}

pub open spec fn probe_tool_model() -> ToolModel {
    ToolModel {
        name: "m3u8_probe"@,
        description: Some("Probe m3u8 stream for information"@),
        input_schema: schema_requiring_model(
            Seq::empty().push(("url"@, param_model("string"@, "URL of the m3u8 stream"@))),
            Seq::empty().push(JsonModel::Text("url"@)),
        ),
    }
}

pub open spec fn extract_segments_tool_model() -> ToolModel {
    ToolModel {
        name: "m3u8_extract_segments"@,
        description: Some("Extract segment URLs from m3u8 playlist"@),
        input_schema: schema_model(
            Seq::empty()
                .push(("url"@, param_model("string"@, "URL of the m3u8 playlist"@)))
                .push(("base_url"@, param_model("string"@, "Base URL for relative segment URLs"@))),
        ),
    }
}

/// Every tool that this host supports, in the order in which they are listed.
pub open spec fn catalogue_model() -> Seq<ToolModel> {
    Seq::empty()
        .push(set_url_tool_model())
        .push(get_url_tool_model())
        .push(parse_tool_model())
        .push(download_tool_model())
        .push(convert_tool_model())
        .push(probe_tool_model())
        .push(extract_segments_tool_model())
}

fn set_url_tool() -> (t: Tool)
    ensures
        t@ == set_url_tool_model(),
{
    tool(
        "m3u8_set_url",
        "Set the current m3u8 URL in the UI",
        schema_requiring(
            ObjectBuilder::new().with(
                "url",
                param("string", "URL of the m3u8 stream to set in the UI"),
            ),
            ArrayBuilder::new().with(Json::text("url")),
        ),
    )
}

fn get_url_tool() -> (t: Tool)
    ensures
        t@ == get_url_tool_model(),
{
    tool("m3u8_get_url", "Get the current m3u8 URL from the UI", schema(ObjectBuilder::new()))
}

fn parse_tool() -> (t: Tool)
    ensures
        t@ == parse_tool_model(),
{
    tool(
        "m3u8_parse",
        "Parse an m3u8 playlist from URL or content",
        schema(
            ObjectBuilder::new().with("url", param("string", "URL of the m3u8 playlist")).with(
                "content",
                param("string", "Raw m3u8 content (if URL not provided)"),
            ),
        ),
    )
}

fn download_tool() -> (t: Tool)
    ensures
        t@ == download_tool_model(),
{
    tool(
        "m3u8_download",
        "Download m3u8 stream using FFmpeg",
        schema_requiring(
            ObjectBuilder::new().with("url", param("string", "URL of the m3u8 stream")).with(
                "output_path",
                param("string", "Output file path (required)"),
            ).with(
                "format",
                param_with_default("string", "Output format (mp4, mkv, ts)", Json::text("mp4")),
            ),
            ArrayBuilder::new().with(Json::text("url")).with(Json::text("output_path")),
        ),
    )
}

fn convert_tool() -> (t: Tool)
    ensures
        t@ == convert_tool_model(),
{
    tool(
        "m3u8_convert",
        "Convert video to HLS format",
        schema_requiring(
            ObjectBuilder::new().with("input_path", param("string", "Input video file path")).with(
                "output_dir",
                param("string", "Output directory for HLS files"),
            ).with(
                "segment_duration",
                param_with_default(
                    "number",
                    "Segment duration in seconds",
                    Json::Number(String::from_str("10")),
                ),
            ).with(
                "playlist_type",
                param_with_default("string", "Playlist type (vod or event)", Json::text("vod")),
            ),
            ArrayBuilder::new().with(Json::text("input_path")).with(Json::text("output_dir")),
        ),
    )
}

fn probe_tool() -> (t: Tool)
    ensures
        t@ == probe_tool_model(),
{
    tool(
        "m3u8_probe",
        "Probe m3u8 stream for information",
        schema_requiring(
            ObjectBuilder::new().with("url", param("string", "URL of the m3u8 stream")),
            ArrayBuilder::new().with(Json::text("url")),
        ),
    )
}

fn extract_segments_tool() -> (t: Tool)
    ensures
        t@ == extract_segments_tool_model(),
{
    tool(
        "m3u8_extract_segments",
        "Extract segment URLs from m3u8 playlist",
        schema(
            ObjectBuilder::new().with("url", param("string", "URL of the m3u8 playlist")).with(
                "base_url",
                param("string", "Base URL for relative segment URLs"),
            ),
        ),
    )
}

/// The whole catalogue, in order.
pub fn catalogue() -> (all: Vec<Tool>)
    ensures
        tools_model(all@) == catalogue_model(),
{
    let mut all: Vec<Tool> = Vec::new();
    all.push(set_url_tool());
    all.push(get_url_tool());
    all.push(parse_tool());
    all.push(download_tool());
    all.push(convert_tool());
    all.push(probe_tool());
    all.push(extract_segments_tool());
    assert(tools_model(all@) =~= catalogue_model());
    all
}

/// Whether an allowlist lets a tool of this name through: an empty list lets
/// every tool through, any other list only the names it holds.
pub open spec fn allows(enabled: Seq<Seq<char>>, name: Seq<char>) -> bool {
    enabled.len() == 0 || enabled.contains(name)
}

/// The tools of `all` that the allowlist lets through, in the order of `all`.
pub open spec fn exposed(all: Seq<ToolModel>, enabled: Seq<Seq<char>>) -> Seq<ToolModel> {
    all.filter(|t: ToolModel| allows(enabled, t.name))
}

/// The tools that a server with this allowlist offers.
pub open spec fn available_tools_model(enabled: Seq<Seq<char>>) -> Seq<ToolModel> {
    exposed(catalogue_model(), enabled)
}

/// The names of an allowlist as a set.
pub fn name_set(names: &[String]) -> (set: StringHashSet)
    ensures
        forall|name: Seq<char>| set@.contains(name) <==> names_model(names@).contains(name),
{
    let mut set = StringHashSet::new();
    let mut i: usize = 0;
    while i < names.len()
        invariant
            0 <= i <= names.len(),
            forall|name: Seq<char>|
                set@.contains(name) <==> exists|k: int|
                    0 <= k < i && #[trigger] names_model(names@)[k] == name,
        decreases names.len() - i,
    {
        let _ = set.insert(names[i].clone());
        proof {
            assert(names_model(names@)[i as int] == names@[i as int]@);
        }
        i += 1;
    }
    proof {
        assert forall|name: Seq<char>| set@.contains(name) <==> names_model(names@).contains(
            name,
        ) by {
            if names_model(names@).contains(name) {
                let k = choose|k: int|
                    0 <= k < names_model(names@).len() && names_model(names@)[k] == name;
                assert(0 <= k < i && names_model(names@)[k] == name);
            }
        }
    }
    set
}

/// The tools of the catalogue that the allowlist lets through, in catalogue
/// order. An empty allowlist lets all of them through; a name in the
/// allowlist that no tool has changes nothing.
pub fn get_available_tools(enabled_tools: &[String]) -> (tools: Vec<Tool>)
    ensures
        tools_model(tools@) == available_tools_model(names_model(enabled_tools@)),
{
    let all = catalogue();
    let ghost enabled = names_model(enabled_tools@);
    let ghost keep = |t: ToolModel| allows(enabled, t.name);
    let ghost full = tools_model(all@);
    let open_to_all = enabled_tools.len() == 0;
    let allowed = name_set(enabled_tools);
    let mut tools: Vec<Tool> = Vec::new();
    let mut i: usize = 0;
    proof {
        reveal(Seq::filter);
        assert(full.take(0) =~= Seq::<ToolModel>::empty());
        assert(tools_model(tools@) =~= full.take(0).filter(keep));
    }
    while i < all.len()
        invariant
            0 <= i <= all.len(),
            full == tools_model(all@),
            enabled == names_model(enabled_tools@),
            keep == (|t: ToolModel| allows(enabled, t.name)),
            open_to_all == (enabled.len() == 0),
            forall|name: Seq<char>| allowed@.contains(name) <==> enabled.contains(name),
            tools_model(tools@) == full.take(i as int).filter(keep),
        decreases all.len() - i,
    {
        let ghost before = tools_model(tools@);
        let wanted = open_to_all || allowed.contains(all[i].name.as_str());
        if wanted {
            tools.push(all[i].duplicate());
        }
        proof {
            reveal(Seq::filter);
            assert(full.take(i + 1).drop_last() =~= full.take(i as int));
            assert(full.take(i + 1).last() == all@[i as int]@);
            assert(wanted == keep(all@[i as int]@));
            if wanted {
                assert(tools_model(tools@) =~= before.push(all@[i as int]@));
            }
        }
        i += 1;
    }
    proof {
        assert(full.take(all.len() as int) =~= full);
    }
    tools
}

pub open spec fn config_resource_model() -> ResourceModel {
    ResourceModel {
        uri: CONFIG_URI@,
        name: "Configuration"@,
        description: Some("m3u8 MCP server configuration"@),
        mime_type: Some("application/json"@),
    }
}

pub open spec fn cache_stats_resource_model() -> ResourceModel {
    ResourceModel {
        uri: CACHE_STATS_URI@,
        name: "Cache Statistics"@,
        description: Some("Statistics about cached m3u8 data"@),
        mime_type: Some("application/json"@),
    }
}

/// Every resource that this host offers, in order.
pub open spec fn resource_catalogue_model() -> Seq<ResourceModel> {
    Seq::empty().push(config_resource_model()).push(cache_stats_resource_model())
}

fn resource(uri: &str, name: &str, description: &str, mime_type: &str) -> (r: Resource)
    ensures
        r@ == (ResourceModel {
            uri: uri@,
            name: name@,
            description: Some(description@),
            mime_type: Some(mime_type@),
        }),
{
    Resource {
        uri: String::from_str(uri),
        name: String::from_str(name),
        description: Some(String::from_str(description)),
        mime_type: Some(String::from_str(mime_type)),
    }
}

/// The resources that the server offers; the allowlist does not touch them.
pub fn get_available_resources() -> (resources: Vec<Resource>)
    ensures
        resources_model(resources@) == resource_catalogue_model(),
{
    let mut resources: Vec<Resource> = Vec::new();
    resources.push(
        resource(CONFIG_URI, "Configuration", "m3u8 MCP server configuration", "application/json"),
    );
    resources.push(
        resource(
            CACHE_STATS_URI,
            "Cache Statistics",
            "Statistics about cached m3u8 data",
            "application/json",
        ),
    );
    assert(resources_model(resources@) =~= resource_catalogue_model());
    resources
}

/// With an empty allowlist every tool of the catalogue is offered.
pub proof fn lemma_empty_allowlist_offers_all()
    ensures
        available_tools_model(Seq::empty()) == catalogue_model(),
{
    let keep = |t: ToolModel| allows(Seq::<Seq<char>>::empty(), t.name);
    lemma_filter_keeps_all(catalogue_model(), keep);
}

/// A filter that every item passes changes nothing.
pub proof fn lemma_filter_keeps_all<A>(s: Seq<A>, keep: spec_fn(A) -> bool)
    requires
        forall|i: int| 0 <= i < s.len() ==> keep(#[trigger] s[i]),
    ensures
        s.filter(keep) == s,
    decreases s.len(),
{
    reveal(Seq::filter);
    if s.len() > 0 {
        lemma_filter_keeps_all(s.drop_last(), keep);
        assert(s.drop_last().push(s.last()) =~= s);
    }
}

/// What is offered is made of tools of the catalogue whose names the
/// allowlist lets through, and they keep the order of the catalogue: each
/// offered tool stands in the catalogue, and of two offered tools the one
/// offered first stands first in the catalogue.
pub proof fn lemma_offer_is_ordered_subset(enabled: Seq<Seq<char>>, i: int, j: int)
    requires
        0 <= i < j < available_tools_model(enabled).len(),
    ensures
        allows(enabled, available_tools_model(enabled)[i].name),
        allows(enabled, available_tools_model(enabled)[j].name),
        exists|a: int, b: int|
            0 <= a < b < catalogue_model().len() && catalogue_model()[a]
                == available_tools_model(enabled)[i] && catalogue_model()[b]
                == available_tools_model(enabled)[j],
{
    let keep = |t: ToolModel| allows(enabled, t.name);
    lemma_filter_positions(catalogue_model(), keep, i, j);
}

/// Two items of a filtered sequence pass the filter and stand in the same
/// order in the sequence that was filtered.
pub proof fn lemma_filter_positions<A>(s: Seq<A>, keep: spec_fn(A) -> bool, i: int, j: int)
    requires
        0 <= i < j < s.filter(keep).len(),
    ensures
        keep(s.filter(keep)[i]),
        keep(s.filter(keep)[j]),
        exists|a: int, b: int|
            0 <= a < b < s.len() && s[a] == s.filter(keep)[i] && s[b] == s.filter(keep)[j],
    decreases s.len(),
{
    reveal(Seq::filter);
    if s.len() > 0 {
        let rest = s.drop_last();
        let kept = rest.filter(keep);
        if keep(s.last()) && j == kept.len() {
            lemma_filter_source(rest, keep, i);
            let a = choose|a: int| 0 <= a < rest.len() && rest[a] == kept[i];
            assert(0 <= a < s.len() - 1 < s.len() && s[a] == s.filter(keep)[i] && s[s.len() - 1]
                == s.filter(keep)[j]);
        } else {
            lemma_filter_positions(rest, keep, i, j);
            let (a, b) = choose|a: int, b: int|
                0 <= a < b < rest.len() && rest[a] == kept[i] && rest[b] == kept[j];
            assert(0 <= a < b < s.len() && s[a] == s.filter(keep)[i] && s[b] == s.filter(keep)[j]);
        }
    }
}

/// An item of a filtered sequence passes the filter and stands in the
/// sequence that was filtered.
pub proof fn lemma_filter_source<A>(s: Seq<A>, keep: spec_fn(A) -> bool, i: int)
    requires
        0 <= i < s.filter(keep).len(),
    ensures
        keep(s.filter(keep)[i]),
        exists|a: int| 0 <= a < s.len() && s[a] == s.filter(keep)[i],
    decreases s.len(),
{
    reveal(Seq::filter);
    if s.len() > 0 {
        let rest = s.drop_last();
        let kept = rest.filter(keep);
        if keep(s.last()) && i == kept.len() {
            assert(s[s.len() - 1] == s.filter(keep)[i]);
        } else {
            lemma_filter_source(rest, keep, i);
            let a = choose|a: int| 0 <= a < rest.len() && rest[a] == kept[i];
            assert(s[a] == s.filter(keep)[i]);
        }
    }
}

/// A copy of a list of tools.
pub fn duplicate_tools(tools: &Vec<Tool>) -> (copy: Vec<Tool>)
    ensures
        tools_model(copy@) == tools_model(tools@),
{
    let mut copy: Vec<Tool> = Vec::new();
    let mut i: usize = 0;
    while i < tools.len()
        invariant
            0 <= i <= tools.len(),
            copy@.len() == i,
            forall|k: int| 0 <= k < i ==> copy@[k]@ == tools@[k]@,
        decreases tools.len() - i,
    {
        copy.push(tools[i].duplicate());
        i += 1;
    }
    assert(tools_model(copy@) =~= tools_model(tools@));
    copy
}

/// A copy of a list of resources.
pub fn duplicate_resources(resources: &Vec<Resource>) -> (copy: Vec<Resource>)
    ensures
        resources_model(copy@) == resources_model(resources@),
{
    let mut copy: Vec<Resource> = Vec::new();
    let mut i: usize = 0;
    while i < resources.len()
        invariant
            0 <= i <= resources.len(),
            copy@.len() == i,
            forall|k: int| 0 <= k < i ==> copy@[k]@ == resources@[k]@,
        decreases resources.len() - i,
    {
        copy.push(resources[i].duplicate());
        i += 1;
    }
    assert(resources_model(copy@) =~= resources_model(resources@));
    copy
}

} // verus!
