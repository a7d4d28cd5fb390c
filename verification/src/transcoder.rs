use vstd::prelude::*;
use crate::chars::{
    chars_of, contains_text, extend, find_text, first_occurrence, first_word, holds_text,
    is_prefix, is_suffix, last_index_of, replace_all, replaced, rfind, slice, word_in,
};
use crate::collaborators::{FFmpegConfig, FFmpegError};
use crate::playlist::{is_absolute, strings_model};
use crate::text::{decimal, joined, number_text, string_of};

verus! {

/// Whether a character is a letter or a digit, as
/// `char::is_alphanumeric` tells it.
pub uninterp spec fn alphanumeric(c: char) -> bool;

/// Trusted: `char::is_alphanumeric` of std. The result is what
/// `alphanumeric` names for this character.
#[verifier::external_body]
fn is_alphanumeric(c: char) -> (yes: bool)
    ensures
        yes == alphanumeric(c),
{
    c.is_alphanumeric()
}

/// Whether a stream can be downloaded from `url`: only over HTTP or
/// HTTPS.
pub fn check_stream_url(url: &str) -> (out: Result<(), FFmpegError>)
    ensures
        out is Ok <==> is_absolute(url@),
        out matches Err(e) ==> e == FFmpegError::InvalidInput(e->InvalidInput_0)
            && e->InvalidInput_0@ == "URL must be HTTP or HTTPS"@,
{
    let text = chars_of(url);
    if is_prefix(&chars_of("http://"), &text) || is_prefix(&chars_of("https://"), &text) {
        Ok(())
    } else {
        Err(FFmpegError::InvalidInput(String::from_str("URL must be HTTP or HTTPS")))
    }
}

/// The command that runs the prober: where a path to the transcoder is
/// given, that path with `ffprobe` in each place of `ffmpeg`.
pub open spec fn ffprobe_command(ffmpeg_path: Option<Seq<char>>) -> Seq<char> {
    match ffmpeg_path {
        Some(p) => replaced(p, "ffmpeg"@, "ffprobe"@),
        None => "ffprobe"@,
    }
}

/// The command that runs the prober.
pub fn get_ffprobe_command(config: &FFmpegConfig) -> (cmd: String)
    ensures
        cmd@ == ffprobe_command(
            match config.ffmpeg_path {
                Some(p) => Some(p@),
                None => None,
            },
        ),
{
    match &config.ffmpeg_path {
        Some(p) => string_of(
            &replace_all(&chars_of(p.as_str()), &chars_of("ffmpeg"), &chars_of("ffprobe")),
        ),
        None => String::from_str("ffprobe"),
    }
}

/// The name under which a stream is saved before it is made safe: what
/// stands behind the last slash of its URL, as an MP4 file; or a name made
/// of the time stamp where the URL has no slash.
pub open spec fn raw_file_name(url: Seq<char>, stamp: Seq<char>) -> Seq<char> {
    match last_index_of(url, '/') {
        Some(pos) => {
            let name = url.skip(pos + 1);
            if ".m3u8"@.is_suffix_of(name) {
                replaced(name, ".m3u8"@, ".mp4"@)
            } else {
                name + ".mp4"@
            }
        },
        None => "stream_"@ + stamp + ".mp4"@,
    }
}

/// A character of a file name made safe, given whether it is a letter or
/// a digit: letters, digits, `.`, `-` and `_` stay, every other character
/// becomes `_`.
pub open spec fn kept_or_replaced(c: char, letter_or_digit: bool) -> char {
    if letter_or_digit || c == '.' || c == '-' || c == '_' {
        c
    } else {
        '_'
    }
}

/// A character of a file name made safe.
pub open spec fn safe_char(c: char) -> char {
    kept_or_replaced(c, alphanumeric(c))
}

/// A character of a file name made safe, given whether it is a letter or
/// a digit.
pub fn keep_or_replace(c: char, letter_or_digit: bool) -> (out: char)
    ensures
        out == kept_or_replaced(c, letter_or_digit),
{
    if letter_or_digit || c == '.' || c == '-' || c == '_' {
        c
    } else {
        '_'
    }
}

/// A file name made safe, character by character.
pub open spec fn safe_name(name: Seq<char>) -> Seq<char> {
    Seq::new(name.len(), |i: int| safe_char(name[i]))
}

/// The name of the file that a stream from `url` is saved under where the
/// caller names none. `stamp` is the local time, as `%Y%m%d_%H%M%S`.
pub open spec fn output_file_name_model(url: Seq<char>, stamp: Seq<char>) -> Seq<char> {
    safe_name(raw_file_name(url, stamp))
}

/// The name of the file that a stream from `url` is saved under where the
/// caller names none.
pub fn output_file_name(url: &str, stamp: &str) -> (name: String)
    ensures
        name@ == output_file_name_model(url@, stamp@),
{
    let text = chars_of(url);
    let raw = match rfind(&text, '/') {
        Some(pos) => {
            let name = slice(&text, pos + 1, text.len());
            proof {
                assert(text@.skip(pos + 1) =~= text@.subrange(pos + 1, text@.len() as int));
            }
            if is_suffix(&chars_of(".m3u8"), &name) {
                replace_all(&name, &chars_of(".m3u8"), &chars_of(".mp4"))
            } else {
                let mut out = name;
                extend(&mut out, &chars_of(".mp4"));
                out
            }
        },
        None => {
            let mut out = chars_of("stream_");
            extend(&mut out, &chars_of(stamp));
            extend(&mut out, &chars_of(".mp4"));
            out
        },
    };
    let mut safe: Vec<char> = Vec::new();
    let mut i: usize = 0;
    while i < raw.len()
        invariant
            0 <= i <= raw.len(),
            safe@.len() == i,
            forall|k: int| 0 <= k < i ==> safe@[k] == safe_char(raw@[k]),
        decreases raw.len() - i,
    {
        let c = raw[i];
        safe.push(keep_or_replace(c, is_alphanumeric(c)));
        i += 1;
    }
    assert(safe@ =~= safe_name(raw@));
    string_of(&safe)
}

/// The arguments with which the transcoder downloads a stream: the
/// streams are copied, the first video stream and every audio stream are
/// taken, progress is shown and an old output file is overwritten.
pub open spec fn download_arguments_model(url: Seq<char>, output: Seq<char>) -> Seq<Seq<char>> {
    Seq::empty().push("-i"@).push(url).push("-c:v"@).push("copy"@).push("-c:a"@).push(
        "copy"@,
    ).push("-map"@).push("0:v:0"@).push("-map"@).push("0:a?"@).push("-stats"@).push("-y"@).push(
        output,
    )
}

/// The arguments with which the transcoder downloads a stream.
pub fn download_arguments(url: &str, output: &str) -> (args: Vec<String>)
    ensures
        strings_model(args@) == download_arguments_model(url@, output@),
{
    let mut args: Vec<String> = Vec::new();
    args.push(String::from_str("-i"));
    args.push(String::from_str(url));
    args.push(String::from_str("-c:v"));
    args.push(String::from_str("copy"));
    args.push(String::from_str("-c:a"));
    args.push(String::from_str("copy"));
    args.push(String::from_str("-map"));
    args.push(String::from_str("0:v:0"));
    args.push(String::from_str("-map"));
    args.push(String::from_str("0:a?"));
    args.push(String::from_str("-stats"));
    args.push(String::from_str("-y"));
    args.push(String::from_str(output));
    assert(strings_model(args@) =~= download_arguments_model(url@, output@));
    args
}

/// The arguments with which the transcoder cuts a file into HLS segments
/// of `segment_duration` seconds.
pub open spec fn hls_arguments_model(
    input: Seq<char>,
    segment_duration: u32,
    segment_pattern: Seq<char>,
    playlist: Seq<char>,
) -> Seq<Seq<char>> {
    Seq::empty().push("-i"@).push(input).push("-c:v"@).push("copy"@).push("-c:a"@).push(
        "copy"@,
    ).push("-f"@).push("hls"@).push("-hls_time"@).push(decimal(segment_duration as nat)).push(
        "-hls_list_size"@,
    ).push("0"@).push("-hls_segment_filename"@).push(segment_pattern).push(playlist)
}

/// The arguments with which the transcoder cuts a file into HLS segments.
pub fn hls_arguments(
    input: &str,
    segment_duration: u32,
    segment_pattern: &str,
    playlist: &str,
) -> (args: Vec<String>)
    ensures
        strings_model(args@) == hls_arguments_model(
            input@,
            segment_duration,
            segment_pattern@,
            playlist@,
        ),
{
    let mut args: Vec<String> = Vec::new();
    args.push(String::from_str("-i"));
    args.push(String::from_str(input));
    args.push(String::from_str("-c:v"));
    args.push(String::from_str("copy"));
    args.push(String::from_str("-c:a"));
    args.push(String::from_str("copy"));
    args.push(String::from_str("-f"));
    args.push(String::from_str("hls"));
    args.push(String::from_str("-hls_time"));
    args.push(number_text(segment_duration as u64));
    args.push(String::from_str("-hls_list_size"));
    args.push(String::from_str("0"));
    args.push(String::from_str("-hls_segment_filename"));
    args.push(String::from_str(segment_pattern));
    args.push(String::from_str(playlist));
    assert(strings_model(args@) =~= hls_arguments_model(
        input@,
        segment_duration,
        segment_pattern@,
        playlist@,
    ));
    args
}

/// The arguments with which the transcoder joins the segments that
/// `list_file` names.
pub open spec fn merge_arguments_model(list_file: Seq<char>, output: Seq<char>) -> Seq<Seq<char>> {
    Seq::empty().push("-f"@).push("concat"@).push("-safe"@).push("0"@).push("-i"@).push(
        list_file,
    ).push("-c"@).push("copy"@).push(output)
}

/// The arguments with which the transcoder joins the segments that
/// `list_file` names.
pub fn merge_arguments(list_file: &str, output: &str) -> (args: Vec<String>)
    ensures
        strings_model(args@) == merge_arguments_model(list_file@, output@),
{
    let mut args: Vec<String> = Vec::new();
    args.push(String::from_str("-f"));
    args.push(String::from_str("concat"));
    args.push(String::from_str("-safe"));
    args.push(String::from_str("0"));
    args.push(String::from_str("-i"));
    args.push(String::from_str(list_file));
    args.push(String::from_str("-c"));
    args.push(String::from_str("copy"));
    args.push(String::from_str(output));
    assert(strings_model(args@) =~= merge_arguments_model(list_file@, output@));
    args
}

/// The arguments with which the prober describes a stream as JSON.
pub open spec fn probe_arguments_model(url: Seq<char>) -> Seq<Seq<char>> {
    Seq::empty().push("-v"@).push("quiet"@).push("-print_format"@).push("json"@).push(
        "-show_format"@,
    ).push("-show_streams"@).push(url)
}

/// The arguments with which the prober describes a stream as JSON.
pub fn probe_arguments(url: &str) -> (args: Vec<String>)
    ensures
        strings_model(args@) == probe_arguments_model(url@),
{
    let mut args: Vec<String> = Vec::new();
    args.push(String::from_str("-v"));
    args.push(String::from_str("quiet"));
    args.push(String::from_str("-print_format"));
    args.push(String::from_str("json"));
    args.push(String::from_str("-show_format"));
    args.push(String::from_str("-show_streams"));
    args.push(String::from_str(url));
    assert(strings_model(args@) =~= probe_arguments_model(url@));
    args
}

/// The text of the list file that names these segments to the
/// transcoder: one line for each.
pub open spec fn segment_list_model(segments: Seq<Seq<char>>) -> Seq<char>
    decreases segments.len(),
{
    if segments.len() == 0 {
        Seq::empty()
    } else {
        segment_list_model(segments.drop_last()) + "file '"@ + segments.last() + "'\n"@
    }
}

/// The text of the list file that names these segments to the
/// transcoder. Joining needs at least one segment.
pub fn segment_list(segments: &Vec<String>) -> (out: Result<String, FFmpegError>)
    ensures
        match out {
            Ok(text) => segments@.len() > 0 && text@ == segment_list_model(
                strings_model(segments@),
            ),
            Err(e) => segments@.len() == 0 && e == FFmpegError::InvalidInput(e->InvalidInput_0)
                && e->InvalidInput_0@ == "No segments provided"@,
        },
{
    if segments.len() == 0 {
        return Err(FFmpegError::InvalidInput(String::from_str("No segments provided")));
    }
    let ghost all = strings_model(segments@);
    let mut text = String::new();
    let mut i: usize = 0;
    proof {
        assert(all.take(0) =~= Seq::<Seq<char>>::empty());
    }
    while i < segments.len()
        invariant
            0 <= i <= segments.len(),
            all == strings_model(segments@),
            text@ == segment_list_model(all.take(i as int)),
        decreases segments.len() - i,
    {
        proof {
            assert(all.take(i + 1).drop_last() =~= all.take(i as int));
            assert(all.take(i + 1).last() == segments@[i as int]@);
        }
        text.append("file '");
        text.append(segments[i].as_str());
        text.append("'\n");
        i += 1;
    }
    proof {
        assert(all.take(segments.len() as int) =~= all);
    }
    Ok(text)
}

/// What the transcoder tells of its progress in one line.
#[derive(Debug, Clone, PartialEq, Eq)]
pub struct Progress {
    pub time: Option<String>,
    pub size: Option<String>,
    pub speed: Option<String>,
}

pub struct ProgressModel {
    pub time: Option<Seq<char>>,
    pub size: Option<Seq<char>>,
    pub speed: Option<Seq<char>>,
}

impl Progress {
    pub open spec fn view(&self) -> ProgressModel {
        ProgressModel {
            time: crate::registry::opt_text(self.time),
            size: crate::registry::opt_text(self.size),
            speed: crate::registry::opt_text(self.speed),
        }
    }

    /// The line shown to the user.
    pub open spec fn message_model(p: ProgressModel) -> Seq<char> {
        "Time: "@ + (match p.time {
            Some(t) => t,
            None => "--:--:--"@,
        }) + " | Size: "@ + (match p.size {
            Some(t) => t,
            None => "--"@,
        }) + " | Speed: "@ + (match p.speed {
            Some(t) => t,
            None => "--"@,
        })
    }

    /// The line shown to the user.
    pub fn message(&self) -> (out: String)
        ensures
            out@ == Progress::message_model(self@),
    {
        let mut out = String::from_str("Time: ");
        match &self.time {
            Some(t) => out.append(t.as_str()),
            None => out.append("--:--:--"),
        }
        out.append(" | Size: ");
        match &self.size {
            Some(t) => out.append(t.as_str()),
            None => out.append("--"),
        }
        out.append(" | Speed: ");
        match &self.speed {
            Some(t) => out.append(t.as_str()),
            None => out.append("--"),
        }
        out
    }
}

/// What stands between the first place of `key` in `line` and the next:
/// nothing where `key` is not in `line`.
pub open spec fn behind_key(line: Seq<char>, key: Seq<char>) -> Option<Seq<char>> {
    match first_occurrence(line, key) {
        None => None,
        Some(i) => {
            let rest = line.skip(i + key.len());
            match first_occurrence(rest, key) {
                Some(j) => Some(rest.take(j)),
                None => Some(rest),
            }
        },
    }
}

/// The value that `line` gives for `key`: the first word behind the key.
pub open spec fn value_of(line: Seq<char>, key: Seq<char>) -> Option<Seq<char>> {
    match behind_key(line, key) {
        Some(part) => first_word(part),
        None => None,
    }
}

/// What a line of the transcoder tells of its progress: something only
/// where the line speaks of time and of speed.
pub open spec fn progress_model(line: Seq<char>) -> Option<ProgressModel> {
    if holds_text(line, "time="@) && holds_text(line, "speed="@) {
        Some(
            ProgressModel {
                time: value_of(line, "time="@),
                size: value_of(line, "size="@),
                speed: value_of(line, "speed="@),
            },
        )
    } else {
        None
    }
}

fn read_value(line: &Vec<char>, key: &str) -> (out: Option<String>)
    requires
        key@.len() > 0,
    ensures
        crate::registry::opt_text(out) == value_of(line@, key@),
{
    let k = chars_of(key);
    proof {
        assert(line@.skip(0) =~= line@);
    }
    let at = match find_text(line, 0, &k) {
        Some(at) => at,
        None => {
            return None;
        },
    };
    let from = at + k.len();
    let to = match find_text(line, from, &k) {
        Some(next) => next,
        None => line.len(),
    };
    proof {
        let rest = line@.skip(from as int);
        assert(rest.take(to - from) =~= line@.subrange(from as int, to as int));
        if to == line.len() {
            assert(rest =~= line@.subrange(from as int, to as int));
        }
    }
    match word_in(line, from, to) {
        Some(w) => Some(string_of(&w)),
        None => None,
    }
}

/// Reads what a line of the transcoder tells of its progress.
pub fn parse_progress(line: &str) -> (out: Option<Progress>)
    ensures
        match out {
            Some(p) => progress_model(line@) == Some(p@),
            None => progress_model(line@) is None,
        },
{
    proof {
        reveal_strlit("time=");
        reveal_strlit("speed=");
        reveal_strlit("size=");
    }
    let text = chars_of(line);
    if contains_text(&text, &chars_of("time=")) && contains_text(&text, &chars_of("speed=")) {
        Some(
            Progress {
                time: read_value(&text, "time="),
                size: read_value(&text, "size="),
                speed: read_value(&text, "speed="),
            },
        )
    } else {
        None
    }
}

/// How a download has ended, given how the transcoder's process ended: a
/// process that ended well has downloaded the stream; one that ended with
/// code 255 or without a code was cancelled; any other failed.
pub open spec fn download_end(success: bool, code: Option<i32>, status: Seq<char>) -> Result<
    (),
    Seq<char>,
> {
    if success {
        Ok(())
    } else if code == Some(255i32) || code is None {
        Err("Download cancelled"@)
    } else {
        Err("FFmpeg exited with status: "@ + status)
    }
}

/// Says how a download has ended. `status` is the process status as text.
pub fn download_result(success: bool, code: Option<i32>, status: &str) -> (out: Result<
    (),
    FFmpegError,
>)
    ensures
        match out {
            Ok(()) => download_end(success, code, status@) is Ok,
            Err(e) => e == FFmpegError::CommandFailed(e->CommandFailed_0) && download_end(
                success,
                code,
                status@,
            ) == Err::<(), Seq<char>>(e->CommandFailed_0@),
        },
{
    if success {
        return Ok(());
    }
    let cancelled = match code {
        Some(c) => c == 255,
        None => true,
    };
    if cancelled {
        Err(FFmpegError::CommandFailed(String::from_str("Download cancelled")))
    } else {
        Err(FFmpegError::CommandFailed(joined("FFmpeg exited with status: ", status)))
    }
}

} // verus!
