use mcp_core::cache::{cache_stats_doc, CacheCounts};
use mcp_core::collaborators::{FFmpegConfig, FFmpegError};
use mcp_core::dispatcher::{complete_cache_stats, CacheReport};
use mcp_core::history::{current_url, last_used_url, remember_url};
use mcp_core::json::Json;
use mcp_core::transcoder::{
    check_stream_url, download_arguments, download_result, get_ffprobe_command, hls_arguments,
    keep_or_replace,
    merge_arguments, output_file_name, parse_progress, probe_arguments, segment_list, Progress,
};

fn entry(url: &str, timestamp: &str) -> Json {
    Json::Object(vec![
        ("url".to_string(), Json::Text(url.to_string())),
        ("timestamp".to_string(), Json::Text(timestamp.to_string())),
    ])
}

#[test]
fn used_url_moves_to_the_front_of_the_history() {
    let history = vec![entry("a", "1"), entry("b", "2"), entry("a", "3"), Json::Null];
    let out = remember_url(&history, "a", "9");
    assert_eq!(out, vec![entry("a", "9"), entry("b", "2"), Json::Null]);
    assert_eq!(remember_url(&Vec::new(), "x", "t"), vec![entry("x", "t")]);
}

#[test]
fn history_keeps_twenty_entries() {
    let mut history = Vec::new();
    for i in 0..25 {
        history.push(entry(&format!("u{}", i), "t"));
    }
    let out = remember_url(&history, "new", "now");
    assert_eq!(out.len(), 20);
    assert_eq!(out[0], entry("new", "now"));
    assert_eq!(out[1], entry("u0", "t"));
    assert_eq!(out[19], entry("u18", "t"));
    let out = remember_url(&history[..20].to_vec(), "u19", "now");
    assert_eq!(out.len(), 20);
    assert_eq!(out[0], entry("u19", "now"));
    assert_eq!(out[19], entry("u18", "t"));
    let out = remember_url(&history[..20].to_vec(), "u3", "now");
    assert_eq!(out.len(), 20);
    assert_eq!(out[19], entry("u19", "t"));
}

#[test]
fn last_used_url_is_that_of_the_first_entry() {
    assert_eq!(last_used_url(&vec![entry("a", "1"), entry("b", "2")]), Some("a".to_string()));
    assert_eq!(last_used_url(&vec![Json::Null, entry("b", "2")]), None);
    assert_eq!(last_used_url(&Vec::new()), None);
}

#[test]
fn blank_entry_clears_the_current_url() {
    assert_eq!(current_url("".to_string()), None);
    assert_eq!(current_url(" \t\r\n\u{3000}".to_string()), None);
    assert_eq!(current_url(" http://x ".to_string()), Some(" http://x ".to_string()));
}

#[test]
fn streams_are_downloaded_over_http_only() {
    assert_eq!(check_stream_url("https://example.com/a.m3u8"), Ok(()));
    assert_eq!(check_stream_url("http://example.com/a.m3u8"), Ok(()));
    assert_eq!(
        check_stream_url("file:///etc/passwd"),
        Err(FFmpegError::InvalidInput("URL must be HTTP or HTTPS".to_string()))
    );
}

#[test]
fn prober_is_found_beside_the_transcoder() {
    let mut config = FFmpegConfig::with_output_dir("out".to_string());
    assert_eq!(get_ffprobe_command(&config), "ffprobe");
    config.ffmpeg_path = Some("/opt/ffmpeg/bin/ffmpeg".to_string());
    assert_eq!(get_ffprobe_command(&config), "/opt/ffprobe/bin/ffprobe");
    config.ffmpeg_path = Some("/usr/bin/avconv".to_string());
    assert_eq!(get_ffprobe_command(&config), "/usr/bin/avconv");
}

#[test]
fn output_file_is_named_after_the_url() {
    assert_eq!(
        output_file_name("https://example.com/live/index.m3u8", "20240101_120000"),
        "index.mp4"
    );
    assert_eq!(
        output_file_name("https://example.com/a.m3u8.b.m3u8", "20240101_120000"),
        "a.mp4.b.mp4"
    );
    assert_eq!(
        output_file_name("https://example.com/video?id=1&x=y z", "20240101_120000"),
        "video_id_1_x_y_z.mp4"
    );
    assert_eq!(output_file_name("https://example.com/", "s"), ".mp4");
    assert_eq!(output_file_name("no-slash-here", "20240101_120000"), "stream_20240101_120000.mp4");
    assert_eq!(output_file_name("http://x/caf\u{e9}-\u{4e2d}.m3u8", "s"), "caf\u{e9}-\u{4e2d}.mp4");
}

#[test]
fn transcoder_arguments() {
    assert_eq!(
        download_arguments("http://x/a.m3u8", "/tmp/a.mp4"),
        vec![
            "-i", "http://x/a.m3u8", "-c:v", "copy", "-c:a", "copy", "-map", "0:v:0", "-map",
            "0:a?", "-stats", "-y", "/tmp/a.mp4"
        ]
    );
    assert_eq!(
        hls_arguments("in.mp4", 10, "out/segment%03d.ts", "out/playlist.m3u8"),
        vec![
            "-i", "in.mp4", "-c:v", "copy", "-c:a", "copy", "-f", "hls", "-hls_time", "10",
            "-hls_list_size", "0", "-hls_segment_filename", "out/segment%03d.ts",
            "out/playlist.m3u8"
        ]
    );
    assert_eq!(hls_arguments("i", 0, "p", "l")[9], "0");
    assert_eq!(hls_arguments("i", u32::MAX, "p", "l")[9], "4294967295");
    assert_eq!(
        merge_arguments("/tmp/list.txt", "out.mp4"),
        vec!["-f", "concat", "-safe", "0", "-i", "/tmp/list.txt", "-c", "copy", "out.mp4"]
    );
    assert_eq!(
        probe_arguments("http://x"),
        vec!["-v", "quiet", "-print_format", "json", "-show_format", "-show_streams", "http://x"]
    );
}

#[test]
fn segment_list_names_one_file_per_line() {
    assert_eq!(
        segment_list(&vec!["a.ts".to_string(), "b c.ts".to_string()]),
        Ok("file 'a.ts'\nfile 'b c.ts'\n".to_string())
    );
    assert_eq!(
        segment_list(&Vec::new()),
        Err(FFmpegError::InvalidInput("No segments provided".to_string()))
    );
}

#[test]
fn progress_line_is_read() {
    let line = "frame= 1234 fps=123 q=-1.0 size=   12345kB time=00:01:23.45 bitrate= 123.4kbits/s speed=1.23x";
    let p = parse_progress(line).expect("progress");
    assert_eq!(
        p,
        Progress {
            time: Some("00:01:23.45".to_string()),
            size: Some("12345kB".to_string()),
            speed: Some("1.23x".to_string()),
        }
    );
    assert_eq!(p.message(), "Time: 00:01:23.45 | Size: 12345kB | Speed: 1.23x");
}

#[test]
fn progress_needs_time_and_speed() {
    assert_eq!(parse_progress("size= 1kB time=00:00:01.00"), None);
    assert_eq!(parse_progress("speed=1x"), None);
    assert_eq!(parse_progress(""), None);
    let p = parse_progress("time= speed=").expect("progress");
    assert_eq!(p, Progress { time: Some("speed=".to_string()), size: None, speed: None });
    assert_eq!(p.message(), "Time: speed= | Size: -- | Speed: --");
    let p = parse_progress("time=1time=2 speed=3x").expect("progress");
    assert_eq!(p.time, Some("1".to_string()));
    assert_eq!(p.speed, Some("3x".to_string()));
    let none = Progress { time: None, size: None, speed: None };
    assert_eq!(none.message(), "Time: --:--:-- | Size: -- | Speed: --");
}

#[test]
fn end_of_the_process_decides_the_result() {
    assert_eq!(download_result(true, Some(0), "exit status: 0"), Ok(()));
    assert_eq!(
        download_result(false, Some(255), "exit status: 255"),
        Err(FFmpegError::CommandFailed("Download cancelled".to_string()))
    );
    assert_eq!(
        download_result(false, None, "signal: 9"),
        Err(FFmpegError::CommandFailed("Download cancelled".to_string()))
    );
    assert_eq!(
        download_result(false, Some(1), "ExitStatus(unix_wait_status(256))"),
        Err(FFmpegError::CommandFailed(
            "FFmpeg exited with status: ExitStatus(unix_wait_status(256))".to_string()
        ))
    );
}

#[test]
fn cache_statistics_document() {
    let counts = CacheCounts {
        cached_playlists: 3,
        downloaded_streams: 0,
        probe_results: -1,
        total_download_size: None,
        latest_download: Some("2024-01-01 10:00:00".to_string()),
        latest_cache: None,
    };
    let doc = cache_stats_doc(&counts);
    assert_eq!(
        doc,
        Json::Object(vec![
            ("cached_playlists".to_string(), Json::Number("3".to_string())),
            ("downloaded_streams".to_string(), Json::Number("0".to_string())),
            ("probe_results".to_string(), Json::Number("-1".to_string())),
            ("total_download_size".to_string(), Json::Number("0".to_string())),
            ("latest_download".to_string(), Json::Text("2024-01-01 10:00:00".to_string())),
            ("latest_cache".to_string(), Json::Null),
        ])
    );
    let r = complete_cache_stats(None, CacheReport::Stats(doc));
    let result = r.result.expect("a result");
    let text = match result.get("contents") {
        Some(Json::Array(items)) => items[0].get("text").and_then(|t| t.as_str()).unwrap().to_string(),
        other => panic!("expected contents, got {:?}", other),
    };
    assert_eq!(
        text,
        "{\"cached_playlists\":3,\"downloaded_streams\":0,\"latest_cache\":null,\
         \"latest_download\":\"2024-01-01 10:00:00\",\"probe_results\":-1,\"total_download_size\":0}"
    );
    let big = CacheCounts { total_download_size: Some(i64::MIN), ..counts };
    assert_eq!(
        cache_stats_doc(&big).get("total_download_size"),
        Some(&Json::Number("-9223372036854775808".to_string()))
    );
}

#[test]
fn unsafe_characters_become_underscores() {
    assert_eq!(keep_or_replace('a', true), 'a');
    assert_eq!(keep_or_replace('/', false), '_');
    assert_eq!(keep_or_replace('.', false), '.');
    assert_eq!(keep_or_replace('-', false), '-');
    assert_eq!(keep_or_replace('_', false), '_');
    assert_eq!(keep_or_replace(' ', false), '_');
}
