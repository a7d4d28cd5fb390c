use vstd::prelude::*;
use crate::chars::{
    chars_of, contains_text, extend, find, first_index_of, holds_text, is_prefix, last_index_of,
    lines_of, parse_unsigned, pieces, reads, remove_all, rfind, slice, split_lines, split_on,
    texts, trim, trimmed, unquote, unquoted, unsigned_value, without,
};
use crate::collaborators::M3u8Error;
use crate::registry::opt_text;
use crate::text::string_of;

verus! {

/// What `url::Url::parse` reads of an absolute URL: its scheme, and its
/// host where it has one; nothing where the text is no absolute URL.
pub uninterp spec fn url_origin(base: Seq<char>) -> Option<(Seq<char>, Option<Seq<char>>)>;

/// Trusted: `url::Url::parse`, with `Url::scheme` and `Url::host_str` to
/// read the result. The scheme and the host are those named by
/// `url_origin` for this text.
#[verifier::external_body]
pub(crate) fn origin_of(base: &str) -> (out: Option<(String, Option<String>)>)
    ensures
        match out {
            Some((scheme, host)) => url_origin(base@) == Some(
                (
                    scheme@,
                    match host {
                        Some(h) => Some(h@),
                        None => None,
                    },
                ),
            ),
            None => url_origin(base@) is None,
        },
{
    let url = url::Url::parse(base).ok()?;
    Some((url.scheme().to_string(), url.host_str().map(|h| h.to_string())))
}

/// Whether a reference is a whole URL by itself.
pub open spec fn is_absolute(uri: Seq<char>) -> bool {
    "http://"@.is_prefix_of(uri) || "https://"@.is_prefix_of(uri)
}

/// The scheme and host of `origin` in front of the path `uri`.
pub open spec fn on_origin(origin: (Seq<char>, Option<Seq<char>>), uri: Seq<char>) -> Seq<char> {
    origin.0 + "://"@ + match origin.1 {
        Some(host) => host,
        None => Seq::empty(),
    } + uri
}

/// `uri` in the directory of `base`: behind what stands before the last
/// slash of `base`, or behind all of `base` where it has no slash.
pub open spec fn beside(base: Seq<char>, uri: Seq<char>) -> Seq<char> {
    match last_index_of(base, '/') {
        Some(pos) => base.take(pos) + "/"@ + uri,
        None => base + "/"@ + uri,
    }
}

/// The URL that a reference in a playlist stands for. A whole URL stands
/// for itself. A path from the root is put on the scheme and host of the
/// playlist's URL, and stands for itself where that URL cannot be read.
/// Any other reference is taken from the directory of the playlist.
pub open spec fn resolved(
    uri: Seq<char>,
    base: Seq<char>,
    origin: Option<(Seq<char>, Option<Seq<char>>)>,
) -> Seq<char> {
    if is_absolute(uri) {
        uri
    } else if "/"@.is_prefix_of(uri) {
        match origin {
            Some(o) => on_origin(o, uri),
            None => uri,
        }
    } else {
        beside(base, uri)
    }
}

/// The scheme and host as the contracts speak of them.
pub open spec fn origin_model(origin: Option<(String, Option<String>)>) -> Option<
    (Seq<char>, Option<Seq<char>>),
> {
    match origin {
        Some((scheme, host)) => Some(
            (
                scheme@,
                match host {
                    Some(h) => Some(h@),
                    None => None,
                },
            ),
        ),
        None => None,
    }
}

/// The URL that a reference in a playlist stands for, on lists of
/// characters.
pub fn resolve_chars(
    reference: &Vec<char>,
    base: &Vec<char>,
    origin: &Option<(String, Option<String>)>,
) -> (out: Vec<char>)
    ensures
        out@ == resolved(reference@, base@, origin_model(*origin)),
{
    if is_prefix(&chars_of("http://"), reference) || is_prefix(&chars_of("https://"), reference) {
        return slice(reference, 0, reference.len());
    }
    if is_prefix(&chars_of("/"), reference) {
        return match origin {
            Some((scheme, host)) => {
                let mut out = chars_of(scheme.as_str());
                extend(&mut out, &chars_of("://"));
                match host {
                    Some(h) => {
                        extend(&mut out, &chars_of(h.as_str()));
                    },
                    None => {
                        proof {
                            assert(out@ + Seq::<char>::empty() =~= out@);
                        }
                    },
                }
                extend(&mut out, reference);
                out
            },
            None => slice(reference, 0, reference.len()),
        };
    }
    let mut out = match rfind(base, '/') {
        Some(pos) => {
            proof {
                crate::chars::lemma_last_index_of(base@, '/');
                assert(base@.take(pos as int) =~= base@.subrange(0, pos as int));
            }
            slice(base, 0, pos)
        },
        None => slice(base, 0, base.len()),
    };
    extend(&mut out, &chars_of("/"));
    extend(&mut out, reference);
    out
}

/// The URL that a reference in a playlist stands for, given the scheme and
/// host that were read from the playlist's URL.
pub fn resolve_uri_with(
    uri: &str,
    base_url: &str,
    origin: Option<(String, Option<String>)>,
) -> (out: String)
    ensures
        out@ == resolved(uri@, base_url@, origin_model(origin)),
{
    string_of(&resolve_chars(&chars_of(uri), &chars_of(base_url), &origin))
}

/// One piece of media in a media playlist.
#[derive(Debug, Clone, PartialEq, Eq)]
pub struct Segment {
    pub uri: String,
    /// The duration in seconds, as the playlist writes it.
    pub duration: String,
    pub title: Option<String>,
    pub byte_range: Option<String>,
}

/// One rendition in a master playlist.
#[derive(Debug, Clone, PartialEq, Eq)]
pub struct Variant {
    pub uri: String,
    pub bandwidth: u64,
    pub resolution: Option<String>,
    pub codecs: Option<String>,
    /// The frame rate, as the playlist writes it.
    pub frame_rate: Option<String>,
}

/// What a playlist holds.
#[derive(Debug, Clone, PartialEq, Eq)]
pub enum ParsedPlaylist {
    Master { version: Option<u8>, variants: Vec<Variant> },
    Media { version: Option<u8>, target_duration: Option<u64>, segments: Vec<Segment> },
}

pub struct SegmentModel {
    pub uri: Seq<char>,
    pub duration: Seq<char>,
    pub title: Option<Seq<char>>,
    pub byte_range: Option<Seq<char>>,
}

pub struct VariantModel {
    pub uri: Seq<char>,
    pub bandwidth: u64,
    pub resolution: Option<Seq<char>>,
    pub codecs: Option<Seq<char>>,
    pub frame_rate: Option<Seq<char>>,
}

pub enum PlaylistModel {
    Master { version: Option<u8>, variants: Seq<VariantModel> },
    Media { version: Option<u8>, target_duration: Option<u64>, segments: Seq<SegmentModel> },
}

impl Segment {
    pub open spec fn view(&self) -> SegmentModel {
        SegmentModel {
            uri: self.uri@,
            duration: self.duration@,
            title: opt_text(self.title),
            byte_range: opt_text(self.byte_range),
        }
    }
}

impl Variant {
    pub open spec fn view(&self) -> VariantModel {
        VariantModel {
            uri: self.uri@,
            bandwidth: self.bandwidth,
            resolution: opt_text(self.resolution),
            codecs: opt_text(self.codecs),
            frame_rate: opt_text(self.frame_rate),
        }
    }
}

pub open spec fn segments_model(segments: Seq<Segment>) -> Seq<SegmentModel> {
    Seq::new(segments.len(), |i: int| segments[i]@)
}

pub open spec fn variants_model(variants: Seq<Variant>) -> Seq<VariantModel> {
    Seq::new(variants.len(), |i: int| variants[i]@)
}

impl ParsedPlaylist {
    pub open spec fn view(&self) -> PlaylistModel {
        match self {
            ParsedPlaylist::Master { version, variants } => PlaylistModel::Master {
                version: *version,
                variants: variants_model(variants@),
            },
            ParsedPlaylist::Media { version, target_duration, segments } => PlaylistModel::Media {
                version: *version,
                target_duration: *target_duration,
                segments: segments_model(segments@),
            },
        }
    }
}

/// The number behind a tag, where the line writes one of at most `max`.
pub open spec fn tagged_number(line: Seq<char>, tag: Seq<char>, max: nat) -> Option<nat> {
    unsigned_value(trimmed(without(line, tag)), max)
}

/// A variant of which nothing is known yet.
pub open spec fn blank_variant() -> VariantModel {
    VariantModel {
        uri: Seq::empty(),
        bandwidth: 0,
        resolution: None,
        codecs: None,
        frame_rate: None,
    }
}

/// The variant `v` after one attribute of its tag was read. An attribute
/// is a key and a value with `=` between them; the value may stand in
/// quotation marks. Other text, and keys that are not known, change
/// nothing. A bandwidth that is no number counts as 0.
pub open spec fn with_attribute(v: VariantModel, attribute: Seq<char>) -> VariantModel {
    match first_index_of(attribute, '=') {
        None => v,
        Some(i) => if 0 <= i < attribute.len() {
            let key = trimmed(attribute.take(i));
            let value = unquoted(trimmed(attribute.skip(i + 1)));
            if key == "BANDWIDTH"@ {
                VariantModel {
                    bandwidth: match unsigned_value(value, u64::MAX as nat) {
                        Some(n) => n as u64,
                        None => 0,
                    },
                    ..v
                }
            } else if key == "RESOLUTION"@ {
                VariantModel { resolution: Some(value), ..v }
            } else if key == "CODECS"@ {
                VariantModel { codecs: Some(value), ..v }
            } else if key == "FRAME-RATE"@ {
                VariantModel { frame_rate: Some(value), ..v }
            } else {
                v
            }
        } else {
            v
        },
    }
}

/// The variant `v` after the attributes were read, one after the other.
pub open spec fn with_attributes(v: VariantModel, attributes: Seq<Seq<char>>) -> VariantModel
    decreases attributes.len(),
{
    if attributes.len() == 0 {
        v
    } else {
        with_attribute(with_attributes(v, attributes.drop_last()), attributes.last())
    }
}

/// The variant that a line with the tag `#EXT-X-STREAM-INF:` announces;
/// its URI is not known yet.
pub open spec fn announced_variant(line: Seq<char>) -> VariantModel {
    with_attributes(blank_variant(), pieces(without(line, "#EXT-X-STREAM-INF:"@), ','))
}

/// The reference that follows the line `i`: the next line, trimmed, unless
/// there is none or it is a tag or a comment.
pub open spec fn reference_after(lines: Seq<Seq<char>>, i: int) -> Option<Seq<char>> {
    if 0 <= i && i + 1 < lines.len() && !"#"@.is_prefix_of(trimmed(lines[i + 1])) {
        Some(trimmed(lines[i + 1]))
    } else {
        None
    }
}

/// What is known of a master playlist while it is read.
pub struct MasterModel {
    pub version: Option<u8>,
    pub variants: Seq<VariantModel>,
}

/// What is known of a media playlist while it is read.
pub struct MediaModel {
    pub version: Option<u8>,
    pub target_duration: Option<u64>,
    pub segments: Seq<SegmentModel>,
}

/// The version that a line with the tag `#EXT-X-VERSION:` writes.
pub open spec fn version_of(line: Seq<char>) -> Option<u8> {
    match tagged_number(line, "#EXT-X-VERSION:"@, 255) {
        Some(n) => Some(n as u8),
        None => None,
    }
}

/// The target duration that a line with the tag `#EXT-X-TARGETDURATION:`
/// writes.
pub open spec fn target_duration_of(line: Seq<char>) -> Option<u64> {
    match tagged_number(line, "#EXT-X-TARGETDURATION:"@, u64::MAX as nat) {
        Some(n) => Some(n as u64),
        None => None,
    }
}

/// What is known of a master playlist after the line `i` was read.
pub open spec fn master_step(
    m: MasterModel,
    lines: Seq<Seq<char>>,
    base: Seq<char>,
    origin: Option<(Seq<char>, Option<Seq<char>>)>,
    i: int,
) -> MasterModel {
    let line = trimmed(lines[i]);
    if "#EXT-X-VERSION:"@.is_prefix_of(line) {
        MasterModel { version: version_of(line), ..m }
    } else if "#EXT-X-STREAM-INF:"@.is_prefix_of(line) {
        match reference_after(lines, i) {
            Some(reference) => MasterModel {
                variants: m.variants.push(
                    VariantModel {
                        uri: resolved(reference, base, origin),
                        ..announced_variant(line)
                    },
                ),
                ..m
            },
            None => m,
        }
    } else {
        m
    }
}

/// What is known of a master playlist after its first `n` lines were
/// read.
pub open spec fn master_upto(
    lines: Seq<Seq<char>>,
    base: Seq<char>,
    origin: Option<(Seq<char>, Option<Seq<char>>)>,
    n: int,
) -> MasterModel
    decreases n,
{
    if n <= 0 {
        MasterModel { version: None, variants: Seq::empty() }
    } else {
        master_step(master_upto(lines, base, origin, n - 1), lines, base, origin, n - 1)
    }
}

/// The segment that a line with the tag `#EXTINF:` announces: its duration
/// is what stands before the first comma, its title what stands between
/// the first comma and the second. Its URI is not known yet.
pub open spec fn announced_segment(line: Seq<char>) -> SegmentModel {
    let parts = pieces(without(line, "#EXTINF:"@), ',');
    SegmentModel {
        uri: Seq::empty(),
        duration: parts[0],
        title: if parts.len() > 1 {
            Some(parts[1])
        } else {
            None
        },
        byte_range: None,
    }
}

/// What is known of a media playlist after the line `i` was read.
pub open spec fn media_step(
    m: MediaModel,
    lines: Seq<Seq<char>>,
    base: Seq<char>,
    origin: Option<(Seq<char>, Option<Seq<char>>)>,
    i: int,
) -> MediaModel {
    let line = trimmed(lines[i]);
    if "#EXT-X-VERSION:"@.is_prefix_of(line) {
        MediaModel { version: version_of(line), ..m }
    } else if "#EXT-X-TARGETDURATION:"@.is_prefix_of(line) {
        MediaModel { target_duration: target_duration_of(line), ..m }
    } else if "#EXTINF:"@.is_prefix_of(line) {
        match reference_after(lines, i) {
            Some(reference) => MediaModel {
                segments: m.segments.push(
                    SegmentModel {
                        uri: resolved(reference, base, origin),
                        ..announced_segment(line)
                    },
                ),
                ..m
            },
            None => m,
        }
    } else if "#EXT-X-BYTERANGE:"@.is_prefix_of(line) && m.segments.len() > 0 {
        MediaModel {
            segments: m.segments.drop_last().push(
                SegmentModel {
                    byte_range: Some(trimmed(without(line, "#EXT-X-BYTERANGE:"@))),
                    ..m.segments.last()
                },
            ),
            ..m
        }
    } else {
        m
    }
}

/// What is known of a media playlist after its first `n` lines were read.
pub open spec fn media_upto(
    lines: Seq<Seq<char>>,
    base: Seq<char>,
    origin: Option<(Seq<char>, Option<Seq<char>>)>,
    n: int,
) -> MediaModel
    decreases n,
{
    if n <= 0 {
        MediaModel { version: None, target_duration: None, segments: Seq::empty() }
    } else {
        media_step(media_upto(lines, base, origin, n - 1), lines, base, origin, n - 1)
    }
}

/// What a master playlist with this text holds.
pub open spec fn master_model(
    content: Seq<char>,
    base: Seq<char>,
    origin: Option<(Seq<char>, Option<Seq<char>>)>,
) -> PlaylistModel {
    let lines = lines_of(content);
    let m = master_upto(lines, base, origin, lines.len() as int);
    PlaylistModel::Master { version: m.version, variants: m.variants }
}

/// What a media playlist with this text holds.
pub open spec fn media_model(
    content: Seq<char>,
    base: Seq<char>,
    origin: Option<(Seq<char>, Option<Seq<char>>)>,
) -> PlaylistModel {
    let lines = lines_of(content);
    let m = media_upto(lines, base, origin, lines.len() as int);
    PlaylistModel::Media {
        version: m.version,
        target_duration: m.target_duration,
        segments: m.segments,
    }
}

/// What a text holds as a playlist. It must begin with `#EXTM3U`; it is a
/// master playlist where it announces a variant anywhere, and a media
/// playlist otherwise.
pub open spec fn playlist_model(
    content: Seq<char>,
    base: Seq<char>,
    origin: Option<(Seq<char>, Option<Seq<char>>)>,
) -> Option<PlaylistModel> {
    if !"#EXTM3U"@.is_prefix_of(content) {
        None
    } else if holds_text(content, "#EXT-X-STREAM-INF:"@) {
        Some(master_model(content, base, origin))
    } else {
        Some(media_model(content, base, origin))
    }
}

fn text_of(chars: &Vec<char>) -> (s: String)
    ensures
        s@ == chars@,
{
    string_of(chars)
}

/// The number behind a tag, where the line writes one of at most `max`.
fn read_tagged_number(line: &Vec<char>, tag: &str, max: u64) -> (out: Option<u64>)
    ensures
        match out {
            Some(n) => tagged_number(line@, tag@, max as nat) == Some(n as nat),
            None => tagged_number(line@, tag@, max as nat) is None,
        },
{
    parse_unsigned(&trim(&remove_all(line, &chars_of(tag))), max)
}

fn read_version(line: &Vec<char>) -> (out: Option<u8>)
    ensures
        out == version_of(line@),
{
    match read_tagged_number(line, "#EXT-X-VERSION:", 255) {
        Some(n) => Some(n as u8),
        None => None,
    }
}

fn read_target_duration(line: &Vec<char>) -> (out: Option<u64>)
    ensures
        out == target_duration_of(line@),
{
    read_tagged_number(line, "#EXT-X-TARGETDURATION:", u64::MAX)
}

fn read_attribute(v: Variant, attribute: &Vec<char>) -> (out: Variant)
    ensures
        out@ == with_attribute(v@, attribute@),
{
    let at = match find(attribute, '=') {
        Some(at) => at,
        None => {
            return v;
        },
    };
    proof {
        crate::chars::lemma_first_index_of(attribute@, '=');
        assert(attribute@.take(at as int) =~= attribute@.subrange(0, at as int));
        assert(attribute@.skip(at + 1) =~= attribute@.subrange(at + 1, attribute@.len() as int));
    }
    let key = trim(&slice(attribute, 0, at));
    let value = unquote(&trim(&slice(attribute, at + 1, attribute.len())));
    let mut out = v;
    if reads(&key, "BANDWIDTH") {
        out.bandwidth = match parse_unsigned(&value, u64::MAX) {
            Some(n) => n,
            None => 0,
        };
    } else if reads(&key, "RESOLUTION") {
        out.resolution = Some(text_of(&value));
    } else if reads(&key, "CODECS") {
        out.codecs = Some(text_of(&value));
    } else if reads(&key, "FRAME-RATE") {
        out.frame_rate = Some(text_of(&value));
    }
    out
}

fn read_variant(line: &Vec<char>) -> (out: Variant)
    ensures
        out@ == announced_variant(line@),
{
    let attributes = split_on(&remove_all(line, &chars_of("#EXT-X-STREAM-INF:")), ',');
    let ghost all = texts(attributes@);
    let mut out = Variant {
        uri: String::new(),
        bandwidth: 0,
        resolution: None,
        codecs: None,
        frame_rate: None,
    };
    let mut i: usize = 0;
    proof {
        assert(all.take(0) =~= Seq::<Seq<char>>::empty());
    }
    while i < attributes.len()
        invariant
            0 <= i <= attributes.len(),
            all == texts(attributes@),
            out@ == with_attributes(blank_variant(), all.take(i as int)),
        decreases attributes.len() - i,
    {
        proof {
            assert(all.take(i + 1).drop_last() =~= all.take(i as int));
            assert(all.take(i + 1).last() == attributes@[i as int]@);
        }
        out = read_attribute(out, &attributes[i]);
        i += 1;
    }
    proof {
        assert(all.take(attributes.len() as int) =~= all);
    }
    out
}

fn read_segment(line: &Vec<char>) -> (out: Segment)
    ensures
        out@ == announced_segment(line@),
{
    let parts = split_on(&remove_all(line, &chars_of("#EXTINF:")), ',');
    proof {
        lemma_pieces_not_empty(without(line@, "#EXTINF:"@), ',');
    }
    let title = if parts.len() > 1 {
        Some(text_of(&parts[1]))
    } else {
        None
    };
    Segment { uri: String::new(), duration: text_of(&parts[0]), title, byte_range: None }
}

/// There is always a first piece.
pub proof fn lemma_pieces_not_empty(s: Seq<char>, c: char)
    ensures
        pieces(s, c).len() > 0,
{
}

/// The reference that follows the line `i`.
fn read_reference(lines: &Vec<Vec<char>>, i: usize) -> (out: Option<Vec<char>>)
    requires
        i < lines.len(),
    ensures
        match out {
            Some(r) => reference_after(texts(lines@), i as int) == Some(r@),
            None => reference_after(texts(lines@), i as int) is None,
        },
{
    if i + 1 < lines.len() {
        let next = trim(&lines[i + 1]);
        if is_prefix(&chars_of("#"), &next) {
            None
        } else {
            Some(next)
        }
    } else {
        None
    }
}

impl M3u8Parser {
    /// Reads the text of a master playlist. `origin` is the scheme and
    /// host that were read from `base_url`.
    pub fn parse_master_playlist(
        &self,
        content: &str,
        base_url: &str,
        origin: &Option<(String, Option<String>)>,
    ) -> (out: ParsedPlaylist)
        ensures
            out@ == master_model(content@, base_url@, origin_model(*origin)),
    {
        let lines = split_lines(&chars_of(content));
        let base = chars_of(base_url);
        let ghost all = texts(lines@);
        let ghost from = origin_model(*origin);
        let mut version: Option<u8> = None;
        let mut variants: Vec<Variant> = Vec::new();
        let mut i: usize = 0;
        proof {
            assert(variants_model(variants@) =~= Seq::<VariantModel>::empty());
        }
        while i < lines.len()
            invariant
                0 <= i <= lines.len(),
                all == texts(lines@),
                all == lines_of(content@),
                base@ == base_url@,
                from == origin_model(*origin),
                (MasterModel { version, variants: variants_model(variants@) }) == master_upto(
                    all,
                    base_url@,
                    from,
                    i as int,
                ),
            decreases lines.len() - i,
        {
            let line = trim(&lines[i]);
            if is_prefix(&chars_of("#EXT-X-VERSION:"), &line) {
                version = read_version(&line);
            } else if is_prefix(&chars_of("#EXT-X-STREAM-INF:"), &line) {
                match read_reference(&lines, i) {
                    Some(reference) => {
                        let mut variant = read_variant(&line);
                        variant.uri = text_of(&resolve_chars(&reference, &base, origin));
                        let ghost before = variants_model(variants@);
                        variants.push(variant);
                        proof {
                            assert(variants_model(variants@) =~= before.push(variant@));
                        }
                    },
                    None => {},
                }
            }
            i += 1;
        }
        ParsedPlaylist::Master { version, variants }
    }

    /// Reads the text of a media playlist. `origin` is the scheme and host
    /// that were read from `base_url`.
    pub fn parse_media_playlist(
        &self,
        content: &str,
        base_url: &str,
        origin: &Option<(String, Option<String>)>,
    ) -> (out: ParsedPlaylist)
        ensures
            out@ == media_model(content@, base_url@, origin_model(*origin)),
    {
        let lines = split_lines(&chars_of(content));
        let base = chars_of(base_url);
        let ghost all = texts(lines@);
        let ghost from = origin_model(*origin);
        let mut version: Option<u8> = None;
        let mut target_duration: Option<u64> = None;
        let mut segments: Vec<Segment> = Vec::new();
        let mut i: usize = 0;
        proof {
            assert(segments_model(segments@) =~= Seq::<SegmentModel>::empty());
        }
        while i < lines.len()
            invariant
                0 <= i <= lines.len(),
                all == texts(lines@),
                all == lines_of(content@),
                base@ == base_url@,
                from == origin_model(*origin),
                (MediaModel { version, target_duration, segments: segments_model(segments@) })
                    == media_upto(all, base_url@, from, i as int),
            decreases lines.len() - i,
        {
            let line = trim(&lines[i]);
            let ghost before = segments_model(segments@);
            if is_prefix(&chars_of("#EXT-X-VERSION:"), &line) {
                version = read_version(&line);
            } else if is_prefix(&chars_of("#EXT-X-TARGETDURATION:"), &line) {
                target_duration = read_target_duration(&line);
            } else if is_prefix(&chars_of("#EXTINF:"), &line) {
                match read_reference(&lines, i) {
                    Some(reference) => {
                        let mut segment = read_segment(&line);
                        segment.uri = text_of(&resolve_chars(&reference, &base, origin));
                        segments.push(segment);
                        proof {
                            assert(segments_model(segments@) =~= before.push(segment@));
                        }
                    },
                    None => {},
                }
            } else if is_prefix(&chars_of("#EXT-X-BYTERANGE:"), &line) && segments.len() > 0 {
                let range = text_of(&trim(&remove_all(&line, &chars_of("#EXT-X-BYTERANGE:"))));
                let mut last = segments.remove(segments.len() - 1);
                last.byte_range = Some(range);
                segments.push(last);
                proof {
                    assert(segments_model(segments@) =~= before.drop_last().push(last@));
                }
            }
            i += 1;
        }
        ParsedPlaylist::Media { version, target_duration, segments }
    }

    /// Reads the text of a playlist, given the scheme and host that were
    /// read from `base_url`. A text that does not begin with `#EXTM3U` is
    /// refused.
    pub fn parse_content_with(
        &self,
        content: &str,
        base_url: &str,
        origin: &Option<(String, Option<String>)>,
    ) -> (out: Result<ParsedPlaylist, M3u8Error>)
        ensures
            match out {
                Ok(p) => playlist_model(content@, base_url@, origin_model(*origin)) == Some(p@),
                Err(e) => playlist_model(content@, base_url@, origin_model(*origin)) is None && e
                    == M3u8Error::ParseError(e->ParseError_0) && e->ParseError_0@
                    == "Not a valid m3u8 file"@,
            },
    {
        let text = chars_of(content);
        if !is_prefix(&chars_of("#EXTM3U"), &text) {
            return Err(M3u8Error::ParseError(String::from_str("Not a valid m3u8 file")));
        }
        if contains_text(&text, &chars_of("#EXT-X-STREAM-INF:")) {
            Ok(self.parse_master_playlist(content, base_url, origin))
        } else {
            Ok(self.parse_media_playlist(content, base_url, origin))
        }
    }

    /// Reads the text of a playlist that was fetched from `base_url`.
    pub fn parse_content(&self, content: &str, base_url: &str) -> (out: Result<
        ParsedPlaylist,
        M3u8Error,
    >)
        ensures
            match out {
                Ok(p) => playlist_model(content@, base_url@, url_origin(base_url@)) == Some(p@),
                Err(e) => playlist_model(content@, base_url@, url_origin(base_url@)) is None && e
                    == M3u8Error::ParseError(e->ParseError_0) && e->ParseError_0@
                    == "Not a valid m3u8 file"@,
            },
    {
        let origin = origin_of(base_url);
        self.parse_content_with(content, base_url, &origin)
    }
}

/// Reads playlists.
#[derive(Debug)]
pub struct M3u8Parser {}

impl M3u8Parser {
    pub fn new() -> (parser: M3u8Parser) {
        M3u8Parser {  }
    }

    /// The URL that a reference in a playlist stands for.
    pub fn resolve_uri(&self, uri: &str, base_url: &str) -> (out: String)
        ensures
            out@ == resolved(uri@, base_url@, url_origin(base_url@)),
    {
        resolve_uri_with(uri, base_url, origin_of(base_url))
    }
}

/// What is to be done next when the segments of a playlist are asked for.
#[derive(Debug, PartialEq, Eq)]
pub enum SegmentsStep {
    /// These are the segments.
    Done(Vec<String>),
    /// The playlist is a master playlist: the playlist of its first variant
    /// is to be fetched from this URL and read with `variant_segments`.
    Fetch(String),
}

pub enum SegmentsStepModel {
    Done(Seq<Seq<char>>),
    Fetch(Seq<char>),
}

/// The characters of each string of a list.
pub open spec fn strings_model(strings: Seq<String>) -> Seq<Seq<char>> {
    Seq::new(strings.len(), |i: int| strings[i]@)
}

impl SegmentsStep {
    pub open spec fn view(&self) -> SegmentsStepModel {
        match self {
            SegmentsStep::Done(uris) => SegmentsStepModel::Done(strings_model(uris@)),
            SegmentsStep::Fetch(url) => SegmentsStepModel::Fetch(url@),
        }
    }
}

/// The URIs of the segments, in order.
pub open spec fn segment_uris(segments: Seq<SegmentModel>) -> Seq<Seq<char>> {
    Seq::new(segments.len(), |i: int| segments[i].uri)
}

/// What is to be done with a playlist whose segments are asked for: a
/// media playlist gives its segments; a master playlist sends on to its
/// first variant, and gives no segments where it has no variant.
pub open spec fn segments_step(p: PlaylistModel) -> SegmentsStepModel {
    match p {
        PlaylistModel::Media { segments, .. } => SegmentsStepModel::Done(segment_uris(segments)),
        PlaylistModel::Master { variants, .. } => if variants.len() > 0 {
            SegmentsStepModel::Fetch(variants[0].uri)
        } else {
            SegmentsStepModel::Done(Seq::empty())
        },
    }
}

/// The segments of the playlist of a variant: those of a media playlist,
/// none of a master playlist.
pub open spec fn variant_segments_model(p: PlaylistModel) -> Seq<Seq<char>> {
    match p {
        PlaylistModel::Media { segments, .. } => segment_uris(segments),
        PlaylistModel::Master { .. } => Seq::empty(),
    }
}

fn uris_of(segments: &Vec<Segment>) -> (uris: Vec<String>)
    ensures
        strings_model(uris@) == segment_uris(segments_model(segments@)),
{
    let mut uris: Vec<String> = Vec::new();
    let mut i: usize = 0;
    while i < segments.len()
        invariant
            0 <= i <= segments.len(),
            uris@.len() == i,
            forall|k: int| 0 <= k < i ==> uris@[k]@ == segments@[k].uri@,
        decreases segments.len() - i,
    {
        uris.push(segments[i].uri.clone());
        i += 1;
    }
    assert(strings_model(uris@) =~= segment_uris(segments_model(segments@)));
    uris
}

/// Says what is to be done with a playlist whose segments are asked for.
pub fn next_segments_step(playlist: &ParsedPlaylist) -> (step: SegmentsStep)
    ensures
        step@ == segments_step(playlist@),
{
    match playlist {
        ParsedPlaylist::Media { segments, .. } => SegmentsStep::Done(uris_of(segments)),
        ParsedPlaylist::Master { variants, .. } => {
            if variants.len() > 0 {
                SegmentsStep::Fetch(variants[0].uri.clone())
            } else {
                let none: Vec<String> = Vec::new();
                assert(strings_model(none@) =~= Seq::<Seq<char>>::empty());
                SegmentsStep::Done(none)
            }
        },
    }
}

/// The segments of the playlist of a variant.
pub fn variant_segments(playlist: &ParsedPlaylist) -> (uris: Vec<String>)
    ensures
        strings_model(uris@) == variant_segments_model(playlist@),
{
    match playlist {
        ParsedPlaylist::Media { segments, .. } => uris_of(segments),
        ParsedPlaylist::Master { .. } => {
            let none: Vec<String> = Vec::new();
            assert(strings_model(none@) =~= Seq::<Seq<char>>::empty());
            none
        },
    }
}

/// Whether a playlist can be fetched from `url`: only over HTTP or HTTPS.
pub fn check_playlist_url(url: &str) -> (out: Result<(), M3u8Error>)
    ensures
        out is Ok <==> is_absolute(url@),
        out matches Err(e) ==> e == M3u8Error::InvalidUrl(e->InvalidUrl_0) && e->InvalidUrl_0@
            == "URL must start with http:// or https://"@,
{
    let text = chars_of(url);
    if is_prefix(&chars_of("http://"), &text) || is_prefix(&chars_of("https://"), &text) {
        Ok(())
    } else {
        Err(M3u8Error::InvalidUrl(String::from_str("URL must start with http:// or https://")))
    }
}

} // verus!
