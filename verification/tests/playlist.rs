use mcp_core::collaborators::M3u8Error;
use mcp_core::playlist::{
    check_playlist_url, next_segments_step, resolve_uri_with, variant_segments, M3u8Parser,
    ParsedPlaylist, Segment, SegmentsStep, Variant,
};

#[test]
fn test_resolve_uri() {
    let parser = M3u8Parser::new();

    assert_eq!(
        parser.resolve_uri("https://example.com/video.ts", "https://base.com/playlist.m3u8"),
        "https://example.com/video.ts"
    );

    assert_eq!(
        parser.resolve_uri("/videos/video.ts", "https://example.com/playlist.m3u8"),
        "https://example.com/videos/video.ts"
    );

    assert_eq!(
        parser.resolve_uri("video.ts", "https://example.com/streams/playlist.m3u8"),
        "https://example.com/streams/video.ts"
    );
}

#[test]
fn root_path_keeps_only_scheme_and_host_of_the_base() {
    let parser = M3u8Parser::new();
    assert_eq!(
        parser.resolve_uri("/a/b.ts", "HTTP://User@Example.COM:8080/x/y.m3u8?q=1"),
        "http://example.com/a/b.ts"
    );
    assert_eq!(parser.resolve_uri("/a.ts", "not a url"), "/a.ts");
    assert_eq!(parser.resolve_uri("/a.ts", "data:text/plain,Stuff"), "data:///a.ts");
}

#[test]
fn relative_reference_goes_beside_the_base() {
    let parser = M3u8Parser::new();
    assert_eq!(parser.resolve_uri("seg.ts", "playlist"), "playlist/seg.ts");
    assert_eq!(parser.resolve_uri("seg.ts", "dir/"), "dir/seg.ts");
    assert_eq!(parser.resolve_uri("", "a/b"), "a/");
    assert_eq!(parser.resolve_uri("http:/x", "a/b"), "a/http:/x");
}

#[test]
fn resolving_with_a_given_origin() {
    let origin = Some(("https".to_string(), Some("h.example".to_string())));
    assert_eq!(resolve_uri_with("/p", "ignored", origin), "https://h.example/p");
    assert_eq!(resolve_uri_with("/p", "ignored", Some(("file".to_string(), None))), "file:///p");
    assert_eq!(resolve_uri_with("/p", "ignored", None), "/p");
    assert_eq!(resolve_uri_with("http://x/y", "b/c", None), "http://x/y");
}

fn segment(uri: &str, duration: &str, title: Option<&str>, byte_range: Option<&str>) -> Segment {
    Segment {
        uri: uri.to_string(),
        duration: duration.to_string(),
        title: title.map(|t| t.to_string()),
        byte_range: byte_range.map(|t| t.to_string()),
    }
}

#[test]
fn media_playlist_is_read_line_by_line() {
    let content = "#EXTM3U\r\n#EXT-X-VERSION:3\r\n#EXT-X-TARGETDURATION:10\r\n\
                   #EXTINF:9.009,First\r\nfirst.ts\r\n\
                   #EXT-X-BYTERANGE: 1000@0 \r\n\
                   #EXTINF:4.5\r\n  /abs/second.ts  \r\n\
                   #EXTINF:1,\r\n#EXT-X-ENDLIST\r\n\
                   #EXTINF:2,a,b\nhttps://cdn.example/third.ts";
    let parser = M3u8Parser::new();
    let playlist = parser.parse_content(content, "https://example.com/live/index.m3u8").unwrap();
    assert_eq!(
        playlist,
        ParsedPlaylist::Media {
            version: Some(3),
            target_duration: Some(10),
            segments: vec![
                segment("https://example.com/live/first.ts", "9.009", Some("First"), Some("1000@0")),
                segment("https://example.com/abs/second.ts", "4.5", None, None),
                segment("https://cdn.example/third.ts", "2", Some("a"), None),
            ],
        }
    );
}

#[test]
fn master_playlist_is_read_line_by_line() {
    let content = "#EXTM3U\n#EXT-X-VERSION: 7 \n\
                   #EXT-X-STREAM-INF:BANDWIDTH=1280000,RESOLUTION=640x360,CODECS=\"avc1.4d401e\",FRAME-RATE=29.970\n\
                   low/index.m3u8\n\
                   #EXT-X-STREAM-INF: BANDWIDTH = 2560000 , NAME=\"x\", RESOLUTION=\"1280x720\"\n\
                   #EXT-X-STREAM-INF:BANDWIDTH=many\n\
                   /high/index.m3u8\n\
                   #EXT-X-STREAM-INF:BANDWIDTH=1\n";
    let parser = M3u8Parser::new();
    let playlist = parser.parse_content(content, "http://example.com/a/master.m3u8").unwrap();
    assert_eq!(
        playlist,
        ParsedPlaylist::Master {
            version: Some(7),
            variants: vec![
                Variant {
                    uri: "http://example.com/a/low/index.m3u8".to_string(),
                    bandwidth: 1280000,
                    resolution: Some("640x360".to_string()),
                    codecs: Some("avc1.4d401e".to_string()),
                    frame_rate: Some("29.970".to_string()),
                },
                Variant {
                    uri: "http://example.com/high/index.m3u8".to_string(),
                    bandwidth: 0,
                    resolution: None,
                    codecs: None,
                    frame_rate: None,
                },
            ],
        }
    );
}

#[test]
fn text_without_the_header_is_no_playlist() {
    let parser = M3u8Parser::new();
    let err = parser.parse_content(" #EXTM3U\n", "http://x/y").unwrap_err();
    assert_eq!(err, M3u8Error::ParseError("Not a valid m3u8 file".to_string()));
    assert_eq!(err.describe(), "Parse error: Not a valid m3u8 file");
    assert!(parser.parse_content("", "http://x/y").is_err());
}

#[test]
fn header_alone_is_an_empty_media_playlist() {
    let parser = M3u8Parser::new();
    assert_eq!(
        parser.parse_content("#EXTM3U", "http://x/y").unwrap(),
        ParsedPlaylist::Media { version: None, target_duration: None, segments: Vec::new() }
    );
}

#[test]
fn numbers_that_do_not_fit_are_not_read() {
    let parser = M3u8Parser::new();
    let content = "#EXTM3U\n#EXT-X-VERSION:256\n#EXT-X-TARGETDURATION:18446744073709551616\n";
    assert_eq!(
        parser.parse_content(content, "http://x/y").unwrap(),
        ParsedPlaylist::Media { version: None, target_duration: None, segments: Vec::new() }
    );
    let content = "#EXTM3U\n#EXT-X-VERSION:+255\n#EXT-X-TARGETDURATION:18446744073709551615\n";
    assert_eq!(
        parser.parse_content(content, "http://x/y").unwrap(),
        ParsedPlaylist::Media {
            version: Some(255),
            target_duration: Some(u64::MAX),
            segments: Vec::new()
        }
    );
    let content = "#EXTM3U\n#EXT-X-VERSION:3\n#EXT-X-VERSION:-1\n";
    assert_eq!(
        parser.parse_content(content, "http://x/y").unwrap(),
        ParsedPlaylist::Media { version: None, target_duration: None, segments: Vec::new() }
    );
}

#[test]
fn tag_is_taken_out_wherever_it_stands_in_the_line() {
    let parser = M3u8Parser::new();
    let content = "#EXTM3U\n#EXT-X-VERSION:#EXT-X-VERSION:4\n";
    assert_eq!(
        parser.parse_content(content, "http://x/y").unwrap(),
        ParsedPlaylist::Media { version: Some(4), target_duration: None, segments: Vec::new() }
    );
}

#[test]
fn segments_of_a_media_playlist_are_its_uris() {
    let playlist = ParsedPlaylist::Media {
        version: None,
        target_duration: None,
        segments: vec![segment("a", "1", None, None), segment("b", "2", None, None)],
    };
    assert_eq!(
        next_segments_step(&playlist),
        SegmentsStep::Done(vec!["a".to_string(), "b".to_string()])
    );
    assert_eq!(variant_segments(&playlist), vec!["a", "b"]);
}

#[test]
fn segments_of_a_master_playlist_are_those_of_its_first_variant() {
    let variant = |uri: &str| Variant {
        uri: uri.to_string(),
        bandwidth: 1,
        resolution: None,
        codecs: None,
        frame_rate: None,
    };
    let playlist =
        ParsedPlaylist::Master { version: None, variants: vec![variant("v1"), variant("v2")] };
    assert_eq!(next_segments_step(&playlist), SegmentsStep::Fetch("v1".to_string()));
    assert_eq!(variant_segments(&playlist), Vec::<String>::new());
    let empty = ParsedPlaylist::Master { version: None, variants: Vec::new() };
    assert_eq!(next_segments_step(&empty), SegmentsStep::Done(Vec::new()));
}

#[test]
fn playlists_are_fetched_over_http_only() {
    assert_eq!(check_playlist_url("http://example.com/a.m3u8"), Ok(()));
    assert_eq!(check_playlist_url("https://example.com/a.m3u8"), Ok(()));
    assert_eq!(
        check_playlist_url("ftp://example.com/a.m3u8"),
        Err(M3u8Error::InvalidUrl("URL must start with http:// or https://".to_string()))
    );
    assert!(check_playlist_url("HTTP://example.com").is_err());
    assert!(check_playlist_url("").is_err());
}
