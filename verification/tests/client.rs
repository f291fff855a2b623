use estradiol_soundcloud::client::Plan;
use estradiol_soundcloud::endpoints::{read_bytes, read_search, read_stream, read_track};
use estradiol_soundcloud::models::collections::Collection;
use estradiol_soundcloud::models::media::Stream;
use estradiol_soundcloud::models::resources::{Resource, Transcoding};
use estradiol_soundcloud::resolver::{Resolution, Step};
use estradiol_soundcloud::transport::{Reply, Request};
use estradiol_soundcloud::{Client, Error};
use std::cell::RefCell;

const TRACK_ID: i64 = 1_126_821_928; // BIG SHOT - Toby Fox

const TOKEN: &str = "iZIs9mchVcX5lhVRyQGGAYlNPVldzAoX";
const SCRIPT: &str = "https://a-v2.sndcdn.com/assets/50-5d3a1f2b.js";
const TRANSCODING: &str =
    "https://api-v2.soundcloud.com/media/soundcloud:tracks:1126821928/4c1b3a7e/stream/progressive";
const MEDIA: &str = "https://cf-media.sndcdn.com/rbhlkHzpPAnQ.128.mp3?Policy=abc&Signature=def";

/// A stand-in for the service: it answers from canned bodies and keeps a
/// list of what it was asked.
struct Service {
    asked: RefCell<Vec<(String, Vec<(String, String)>)>>,
}

impl Service {
    fn new() -> Service {
        Service { asked: RefCell::new(Vec::new()) }
    }

    fn note(&self, request: &Request) -> (String, Option<String>) {
        let parameters = request.parameters();
        let token = parameters.iter().find(|p| p.0 == "client_id").map(|p| p.1.clone());
        self.asked.borrow_mut().push((request.url(), parameters));
        (request.url(), token)
    }

    fn text(&self, request: &Request) -> Reply<String> {
        let (url, token) = self.note(request);
        let authorised = token.as_deref() == Some(TOKEN);
        let body = match url.as_str() {
            "https://soundcloud.com" => format!(
                r#"<html><body><script crossorigin src="https://a-v2.sndcdn.com/assets/0-11aa22bb.js"></script>
                   <script crossorigin src="{}"></script></body></html>"#,
                SCRIPT
            ),
            "https://a-v2.sndcdn.com/assets/0-11aa22bb.js" => "(()=>{var e=1})();".to_string(),
            SCRIPT => format!(r#"o={{name:"web",client_id:"{}",version:1}}"#, TOKEN),
            "https://api-v2.soundcloud.com/tracks/1126821928" if authorised => format!(
                r#"{{"artwork_url": "https://i1.sndcdn.com/artworks-x-large.jpg",
                    "created_at": "2021-09-17T04:06:18Z", "duration": 142236,
                    "full_duration": 142236, "genre": "Soundtrack", "id": 1126821928,
                    "kind": "track", "likes_count": 12000,
                    "permalink_url": "https://soundcloud.com/tobyfox/big-shot",
                    "playback_count": 1000000, "tag_list": "", "title": "BIG SHOT",
                    "media": {{"transcodings": [
                        {{"url": "https://api-v2.soundcloud.com/media/x/stream/hls",
                          "preset": "mp3_1_0", "duration": 142236, "snipped": false,
                          "format": {{"protocol": "hls", "mime_type": "audio/mpeg"}},
                          "quality": "sq"}},
                        {{"url": "{}", "preset": "mp3_1_0", "duration": 142236,
                          "snipped": false,
                          "format": {{"protocol": "progressive", "mime_type": "audio/mpeg"}},
                          "quality": "sq"}}]}},
                    "user": {{"avatar_url": "https://i1.sndcdn.com/avatars-x-large.jpg",
                             "followers_count": 300000, "id": 18913056, "kind": "user",
                             "permalink_url": "https://soundcloud.com/tobyfox",
                             "username": "Toby Fox"}}}}"#,
                TRANSCODING
            ),
            TRANSCODING if authorised => format!(r#"{{"url": "{}"}}"#, MEDIA),
            "https://api-v2.soundcloud.com/search" if authorised => {
                r#"{"collection": [
                       {"id": 1126821928, "kind": "track", "title": "BIG SHOT"},
                       {"id": 18913056, "kind": "user", "username": "Toby Fox"},
                       {"id": 7, "kind": "playlist", "title": "UNDERTALE Soundtrack", "tracks": []}],
                    "total_results": 213400,
                    "next_href": "https://api-v2.soundcloud.com/search?query_urn=soundcloud%3Asearch%3Aabc&offset=50&limit=50",
                    "query_urn": "soundcloud:search:abc"}"#
                    .to_string()
            }
            _ => return Reply::Failed(format!("{}: status code 401", url)),
        };
        Reply::Body(body)
    }

    fn bytes(&self, request: &Request) -> Reply<Vec<u8>> {
        let (url, _) = self.note(request);
        if url == MEDIA {
            Reply::Body(vec![0x49, 0x44, 0x33, 0x04, 0x00])
        } else {
            Reply::Failed(format!("{}: dns error", url))
        }
    }

    fn asked_for(&self, url: &str) -> usize {
        self.asked.borrow().iter().filter(|entry| entry.0 == url).count()
    }
}

/// The client together with the service it talks to: it carries out what
/// the client plans.
struct Session {
    client: Client,
    service: Service,
}

impl Session {
    fn new() -> Session {
        Session { client: Client::default(), service: Service::new() }
    }

    fn discover(&self, state: Resolution, request: Request) -> Result<String, Error> {
        let mut state = state;
        let mut request = request;
        loop {
            match state.advance(self.service.text(&request)) {
                Step::Fetch(next, then) => {
                    state = next;
                    request = then;
                }
                Step::Done(outcome) => return outcome,
            }
        }
    }

    fn ready(&mut self, ask: &dyn Fn(&Client) -> Plan<Request>) -> Result<Request, Error> {
        match ask(&self.client) {
            Plan::Ready(request) => Ok(request),
            Plan::Resolve(state, request) => {
                let outcome = self.discover(state, request);
                self.client.settle(outcome)?;
                match ask(&self.client) {
                    Plan::Ready(request) => Ok(request),
                    Plan::Resolve(..) => panic!("a settled client asks for a discovery"),
                }
            }
        }
    }

    fn track(&mut self, id: i64) -> Result<Resource, Error> {
        let request = self.ready(&|client| client.track(id))?;
        read_track(self.service.text(&request))
    }

    fn stream(&mut self, transcoding: &Transcoding) -> Result<Stream, Error> {
        let request = self.ready(&|client| client.stream(transcoding))?;
        read_stream(self.service.text(&request))
    }

    fn bytes(&self, url: &str) -> Result<Vec<u8>, Error> {
        let request = self.client.bytes(url);
        read_bytes(url, self.service.bytes(&request))
    }

    fn search(&mut self, query: &str, limit: i64, offset: i64) -> Result<Collection, Error> {
        let request = self.ready(&|client| client.search(query, limit, offset))?;
        read_search(self.service.text(&request))
    }
}

#[test]
fn test_track_stream_bytes() -> Result<(), Error> {
    let mut client = Session::new();

    let track = client.track(TRACK_ID)?;
    let transcoding = track.media().unwrap().progressive().unwrap();
    let stream = client.stream(&transcoding)?;
    let stream_bytes = client.bytes(&stream.url())?;

    assert_eq!(track.title().unwrap(), String::from("BIG SHOT"));
    assert_eq!(track.user().unwrap().username().unwrap(), String::from("Toby Fox"));
    assert!(stream.url().contains("https://cf-media.sndcdn.com/rbhlkHzpPAnQ.128.mp3"));
    assert!(!stream_bytes.is_empty());

    Ok(())
}

#[test]
fn test_search() -> Result<(), Error> {
    let mut client = Session::new();

    let search = client.search("undertale", 50, 0)?;

    assert!(!search.collection().is_empty());
    assert!(search.total_results().unwrap() > 200_000);
    assert!(search.next_href().is_some());
    assert!(search.query_urn().is_some());

    Ok(())
}

#[test]
fn search_sends_the_query_with_the_token() {
    let mut session = Session::new();
    session.search("undertale", 50, 0).unwrap();
    let asked = session.service.asked.borrow();
    let (url, parameters) = asked.last().unwrap();
    assert_eq!(url, "https://api-v2.soundcloud.com/search");
    let expected: Vec<(String, String)> =
        [("client_id", TOKEN), ("q", "undertale"), ("limit", "50"), ("offset", "0")]
            .iter()
            .map(|p| (p.0.to_string(), p.1.to_string()))
            .collect();
    assert_eq!(parameters, &expected);
}

#[test]
fn the_token_is_resolved_once_and_kept() {
    let mut session = Session::new();
    assert!(!session.client.is_authenticated());
    session.track(TRACK_ID).unwrap();
    assert!(session.client.is_authenticated());
    session.track(TRACK_ID).unwrap();
    session.search("undertale", 50, 0).unwrap();
    assert_eq!(session.service.asked_for("https://soundcloud.com"), 1);
    assert_eq!(session.service.asked_for(SCRIPT), 1);
    assert_eq!(session.service.asked_for("https://api-v2.soundcloud.com/tracks/1126821928"), 2);
    assert!(matches!(session.client.client_id(), Plan::Ready(token) if token == TOKEN));
}

#[test]
fn bytes_need_no_token() {
    let session = Session::new();
    assert!(!session.bytes(MEDIA).unwrap().is_empty());
    assert!(!session.client.is_authenticated());
    assert_eq!(session.service.asked_for("https://soundcloud.com"), 0);
}

#[test]
fn bytes_of_an_unreachable_url_fail_and_are_not_empty_success() {
    let session = Session::new();
    let outcome = session.bytes("https://unreachable.invalid/x.mp3");
    assert!(matches!(outcome, Err(Error::Ureq(_))));
}

#[test]
fn a_fresh_client_plans_a_discovery() {
    let client = Client::new();
    assert!(!client.is_authenticated());
    for plan in [client.track(1), client.search("q", 1, 0)] {
        match plan {
            Plan::Resolve(_, request) => {
                assert_eq!(request.url(), "https://soundcloud.com");
                assert!(request.parameters().is_empty());
            }
            Plan::Ready(request) => panic!("{request:?}"),
        }
    }
    assert!(matches!(client.client_id(), Plan::Resolve(..)));
}

#[test]
fn settling_keeps_the_first_token() {
    let mut client = Client::new();
    assert_eq!(client.settle(Ok("first".to_string())).unwrap(), "first");
    assert_eq!(client.settle(Ok("second".to_string())).unwrap(), "first");
    assert_eq!(client.settle(Err(Error::Unknown)).unwrap(), "first");
    assert!(matches!(client.client_id(), Plan::Ready(token) if token == "first"));
    match client.track(5) {
        Plan::Ready(request) => assert_eq!(
            request.parameters(),
            vec![("client_id".to_string(), "first".to_string())]
        ),
        Plan::Resolve(..) => panic!("an authenticated client asks for a discovery"),
    }
}

#[test]
fn a_failed_discovery_is_not_kept() {
    let mut client = Client::new();
    assert!(matches!(client.settle(Err(Error::Unknown)), Err(Error::Unknown)));
    assert!(!client.is_authenticated());
    assert!(matches!(
        client.settle(Err(Error::Ureq("down".to_string()))),
        Err(Error::Ureq(why)) if why == "down"
    ));
    assert!(matches!(client.track(1), Plan::Resolve(..)));
    assert_eq!(client.settle(Ok("late".to_string())).unwrap(), "late");
    assert!(client.is_authenticated());
}

#[test]
fn a_rejected_token_is_a_transport_failure_and_stays() {
    let mut session = Session::new();
    session.client.settle(Ok("stale".to_string())).unwrap();
    assert!(matches!(session.track(TRACK_ID), Err(Error::Ureq(_))));
    assert!(matches!(session.client.client_id(), Plan::Ready(token) if token == "stale"));
    assert_eq!(session.service.asked_for("https://soundcloud.com"), 0);
}
