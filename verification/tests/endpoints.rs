use estradiol_soundcloud::endpoints::{
    body_of, get_bytes, get_search, get_stream, get_stream_bytes, get_track, read_bytes,
    read_search, read_stream, read_track,
};
use estradiol_soundcloud::error::ErrorKind;
use estradiol_soundcloud::json::parse;
use estradiol_soundcloud::models::media::Stream;
use estradiol_soundcloud::models::resources::Transcoding;
use estradiol_soundcloud::transport::{identification_headers, Reply, Request};
use estradiol_soundcloud::Error;

fn pair(name: &str, value: &str) -> (String, String) {
    (name.to_string(), value.to_string())
}

fn browser_headers() -> Vec<(String, String)> {
    vec![
        pair("Origin", "https://soundcloud.com"),
        pair("Referer", "https://soundcloud.com"),
        pair(
            "User-Agent",
            "Mozilla/5.0 (Windows NT 10.0; Win64; x64; rv:132.0) Gecko/20100101 Firefox/132.0",
        ),
    ]
}

#[test]
fn track_request_is_exact() {
    let request = get_track("TOKEN", 1_126_821_928);
    assert_eq!(request.url(), "https://api-v2.soundcloud.com/tracks/1126821928");
    assert_eq!(request.parameters(), vec![pair("client_id", "TOKEN")]);
    assert_eq!(request.headers(), browser_headers());
}

#[test]
fn track_request_writes_negative_ids_with_their_sign() {
    assert_eq!(get_track("t", -5).url(), "https://api-v2.soundcloud.com/tracks/-5");
    assert_eq!(get_track("t", 0).url(), "https://api-v2.soundcloud.com/tracks/0");
}

#[test]
fn search_request_is_exact() {
    let request = get_search("TOKEN", "undertale", 50, 0);
    assert_eq!(request.url(), "https://api-v2.soundcloud.com/search");
    assert_eq!(
        request.parameters(),
        vec![
            pair("client_id", "TOKEN"),
            pair("q", "undertale"),
            pair("limit", "50"),
            pair("offset", "0"),
        ]
    );
    assert_eq!(request.headers(), browser_headers());
}

#[test]
fn search_request_passes_the_query_on_unchanged() {
    let request = get_search("t", "a b&c=d", -1, 200);
    assert_eq!(
        request.parameters(),
        vec![pair("client_id", "t"), pair("q", "a b&c=d"), pair("limit", "-1"), pair("offset", "200")]
    );
}

#[test]
fn stream_request_goes_to_the_url_of_the_transcoding() {
    let json = parse(
        r#"{"url": "https://api-v2.soundcloud.com/media/x/stream/progressive", "preset": "mp3",
            "duration": 1, "format": {"protocol": "progressive", "mime_type": "audio/mpeg"},
            "quality": "sq"}"#,
    )
    .unwrap();
    let transcoding = Transcoding::from_json(&json).unwrap();
    let request = get_stream("TOKEN", &transcoding);
    assert_eq!(request.url(), "https://api-v2.soundcloud.com/media/x/stream/progressive");
    assert_eq!(request.parameters(), vec![pair("client_id", "TOKEN")]);
    assert_eq!(request.headers(), browser_headers());
}

#[test]
fn bytes_request_carries_no_token() {
    let request = get_bytes("https://cf-media.sndcdn.com/x.mp3?sig=1");
    assert_eq!(request.url(), "https://cf-media.sndcdn.com/x.mp3?sig=1");
    assert!(request.parameters().is_empty());
    assert_eq!(request.headers(), browser_headers());
}

#[test]
fn stream_bytes_request_goes_to_the_url_of_the_stream() {
    let stream = Stream::from_json(&parse(r#"{"url": "https://m/x.mp3"}"#).unwrap()).unwrap();
    let request = get_stream_bytes(&stream);
    assert_eq!(request.url(), "https://m/x.mp3");
    assert!(request.parameters().is_empty());
}

#[test]
fn every_request_carries_the_same_headers() {
    assert_eq!(identification_headers(), browser_headers());
    assert_eq!(Request::get("https://anywhere").headers(), browser_headers());
    assert_eq!(Request::get("x").query("a", "b").headers(), browser_headers());
}

#[test]
fn a_request_keeps_its_parameters_in_order() {
    let request = Request::get("u").query("b", "2").query("a", "1").query("b", "3");
    assert_eq!(request.url(), "u");
    assert_eq!(request.parameters(), vec![pair("b", "2"), pair("a", "1"), pair("b", "3")]);
    let copy = request.clone();
    assert_eq!(copy.url(), "u");
    assert_eq!(copy.parameters(), request.parameters());
}

#[test]
fn body_of_tells_the_three_replies_apart() {
    assert_eq!(body_of(Reply::Body("text".to_string())).unwrap(), "text");
    assert!(matches!(body_of(Reply::Failed("refused".to_string())), Err(Error::Ureq(why)) if why == "refused"));
    assert!(matches!(body_of(Reply::Unreadable("cut".to_string())), Err(Error::StdIo(why)) if why == "cut"));
}

#[test]
fn read_track_decodes_the_body() {
    let reply = Reply::Body(r#"{"id": 3, "kind": "track", "title": "t"}"#.to_string());
    let track = read_track(reply).unwrap();
    assert_eq!(track.id(), 3);
    assert_eq!(track.title(), Some("t".to_string()));
}

#[test]
fn read_track_tells_transport_from_decode() {
    let failed = read_track(Reply::Failed("status 404".to_string())).unwrap_err();
    assert!(matches!(&failed, Error::Ureq(why) if why == "status 404"));
    assert_eq!(failed.kind(), ErrorKind::Transport);

    let unreadable = read_track(Reply::Unreadable("reset".to_string())).unwrap_err();
    assert!(matches!(&unreadable, Error::StdIo(why) if why == "reset"));
    assert_eq!(unreadable.kind(), ErrorKind::Decode);

    let not_json = read_track(Reply::Body("<html>".to_string())).unwrap_err();
    assert_eq!(not_json.kind(), ErrorKind::Decode);

    let wrong_shape = read_track(Reply::Body(r#"{"id": 3}"#.to_string())).unwrap_err();
    assert!(matches!(wrong_shape, Error::StdIo(_)));
}

#[test]
fn read_stream_decodes_the_body() {
    let stream = read_stream(Reply::Body(r#"{"url": "https://m/x.mp3"}"#.to_string())).unwrap();
    assert_eq!(stream.url(), "https://m/x.mp3");
    assert!(matches!(read_stream(Reply::Body("{}".to_string())), Err(Error::StdIo(_))));
    assert!(matches!(read_stream(Reply::Failed("x".to_string())), Err(Error::Ureq(_))));
    assert!(matches!(read_stream(Reply::Unreadable("x".to_string())), Err(Error::StdIo(_))));
}

#[test]
fn read_search_decodes_the_body() {
    let page = read_search(Reply::Body(
        r#"{"collection": [{"id": 1, "kind": "track"}], "total_results": 9}"#.to_string(),
    ))
    .unwrap();
    assert_eq!(page.collection().len(), 1);
    assert_eq!(page.total_results(), Some(9));
    assert!(matches!(read_search(Reply::Body("[]".to_string())), Err(Error::StdIo(_))));
    assert!(matches!(read_search(Reply::Failed("x".to_string())), Err(Error::Ureq(_))));
    assert!(matches!(read_search(Reply::Unreadable("x".to_string())), Err(Error::StdIo(_))));
}

#[test]
fn read_search_takes_an_answer_that_gives_the_total_alone() {
    let page = read_search(Reply::Body(r#"{"total_results":7}"#.to_string())).unwrap();
    assert_eq!(page.total_results(), Some(7));
    assert_eq!(page.next_href(), None);
    assert_eq!(page.query_urn(), None);
    assert!(page.collection().is_empty());
}

#[test]
fn read_bytes_hands_the_bytes_on_unchanged() {
    assert_eq!(read_bytes("u", Reply::Body(vec![1, 2, 3])).unwrap(), vec![1, 2, 3]);
    assert_eq!(read_bytes("u", Reply::Body(Vec::new())).unwrap(), Vec::<u8>::new());
}

#[test]
fn bytes_of_an_unreachable_url_are_a_transport_failure() {
    let outcome = read_bytes("https://unreachable.invalid/x", Reply::Failed("dns".to_string()));
    let failure = outcome.unwrap_err();
    assert!(matches!(&failure, Error::Ureq(why) if why == "dns"));
    assert_eq!(failure.kind(), ErrorKind::Transport);
}

#[test]
fn bytes_that_broke_off_name_the_url() {
    let failure = read_bytes("https://m/x.mp3", Reply::Unreadable("eof".to_string())).unwrap_err();
    assert!(matches!(&failure, Error::InvalidData(url) if url == "https://m/x.mp3"));
    assert_eq!(failure.kind(), ErrorKind::Decode);
    assert_eq!(failure.to_string(), "failed to get bytes https://m/x.mp3");
}

#[test]
fn each_failure_has_its_class_and_text() {
    let cases = vec![
        (Error::Ureq("a".to_string()), ErrorKind::Transport, "ureq error"),
        (Error::StdIo("b".to_string()), ErrorKind::Decode, "std::io error"),
        (Error::InvalidData("c".to_string()), ErrorKind::Decode, "failed to get bytes c"),
        (Error::Regex("d".to_string()), ErrorKind::PatternCompile, "regex error"),
        (Error::Unknown, ErrorKind::Unresolved, "unknown error"),
    ];
    for (failure, kind, text) in cases {
        assert_eq!(failure.kind(), kind);
        assert_eq!(failure.to_string(), text);
    }
}
