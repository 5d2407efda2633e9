use youtube_downloader::metadata::{
    entry_url_of, parse_playlist, parse_video_info, split_lines, VideoInfo,
};

#[test]
fn video_info_is_read_from_json() {
    assert_eq!(
        parse_video_info(
            br#"{"id": "abc123", "title": "A Song", "duration": 212, "url": "https://x/y", "other": [1, 2]}"#
        ),
        Some(VideoInfo {
            id: Some("abc123".to_string()),
            title: Some("A Song".to_string()),
            url: Some("https://x/y".to_string()),
            duration: Some("212".to_string()),
        })
    );
}

#[test]
fn members_of_another_type_are_absent() {
    assert_eq!(
        parse_video_info(br#"{"id": 5, "title": null, "duration": "long", "url": {"a": 1}}"#),
        Some(VideoInfo { id: None, title: None, url: None, duration: None })
    );
    assert_eq!(
        parse_video_info(b"[1, 2, 3]"),
        Some(VideoInfo { id: None, title: None, url: None, duration: None })
    );
    assert_eq!(
        parse_video_info(b"\"id\""),
        Some(VideoInfo { id: None, title: None, url: None, duration: None })
    );
}

#[test]
fn output_that_is_not_json_gives_nothing() {
    assert_eq!(parse_video_info(b""), None);
    assert_eq!(parse_video_info(b"{"), None);
    assert_eq!(parse_video_info(b"{\"id\": \"a\"} trailing"), None);
    assert_eq!(parse_video_info(b"{\"id\": \"\xff\"}"), None);
    assert_eq!(parse_video_info(b"ERROR: no video"), None);
}

#[test]
fn json_text_is_decoded() {
    let info = parse_video_info(br#"  {"title": "Caf\u00e9 \"live\" \/ part\n2", "duration": 1.5e2}  "#)
        .unwrap();
    assert_eq!(info.title, Some("Caf\u{e9} \"live\" / part\n2".to_string()));
    assert_eq!(info.duration.as_ref().unwrap().parse::<f64>().unwrap(), 150.0);
    let info = parse_video_info(br#"{"duration": 0.1}"#).unwrap();
    assert_eq!(info.duration, Some("0.1".to_string()));
    let info = parse_video_info(br#"{"duration": -3}"#).unwrap();
    assert_eq!(info.duration, Some("-3".to_string()));
}

#[test]
fn lines_are_split_at_line_feeds() {
    assert_eq!(split_lines(b""), vec![Vec::<u8>::new()]);
    assert_eq!(split_lines(b"abc"), vec![b"abc".to_vec()]);
    assert_eq!(split_lines(b"a\nb"), vec![b"a".to_vec(), b"b".to_vec()]);
    assert_eq!(
        split_lines(b"a\r\n\nb\n"),
        vec![b"a\r".to_vec(), Vec::new(), b"b".to_vec(), Vec::new()]
    );
}

#[test]
fn playlist_listing_counts_json_lines() {
    let listing = parse_playlist(
        b"{\"id\": \"a\"}\n{\"url\": \"https://youtu.be/b\"}\r\n\nnope\n{\"title\": \"no address\"}\n{\"id\": \"c\", \"url\": \"https://youtu.be/ignored\"}",
    );
    assert_eq!(listing.total, 4);
    assert_eq!(
        listing.urls,
        vec![
            "https://www.youtube.com/watch?v=a".to_string(),
            "https://youtu.be/b".to_string(),
            "https://www.youtube.com/watch?v=c".to_string(),
        ]
    );
    let empty = parse_playlist(b"");
    assert_eq!(empty.total, 0);
    assert!(empty.urls.is_empty());
}

#[test]
fn playlist_listing_agrees_with_line_wise_parsing() {
    let stdout = "{\"id\": \"a\"}\r\n  {\"id\": \"b\"}  \n{\"id\": \"c\"";
    let expected: Vec<serde_json::Value> = stdout
        .lines()
        .filter_map(|line| serde_json::from_str(line).ok())
        .collect();
    let listing = parse_playlist(stdout.as_bytes());
    assert_eq!(listing.total, expected.len());
    assert_eq!(listing.total, 2);
}

#[test]
fn entry_url_prefers_the_identifier() {
    let both = VideoInfo {
        id: Some("abc".to_string()),
        title: None,
        url: Some("https://youtu.be/other".to_string()),
        duration: None,
    };
    assert_eq!(entry_url_of(both), Some("https://www.youtube.com/watch?v=abc".to_string()));
    let url_only = VideoInfo {
        id: None,
        title: None,
        url: Some("https://youtu.be/other".to_string()),
        duration: None,
    };
    assert_eq!(entry_url_of(url_only), Some("https://youtu.be/other".to_string()));
    let neither = VideoInfo { id: None, title: None, url: None, duration: None };
    assert_eq!(entry_url_of(neither), None);
}
