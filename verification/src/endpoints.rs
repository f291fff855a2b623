//! One operation per API call: the request that makes it, and what its
//! reply means.
//!
//! Each call is one round trip. Nothing is retried.

use crate::error::Error;
use crate::json::{parse, parsed};
use crate::models::collections::{Collection, CollectionView};
use crate::models::media::{Stream, StreamView};
use crate::models::resources::{Resource, ResourceView, Transcoding};
use crate::text::{decimal, to_decimal};
use crate::transport::{Reply, Request, RequestView};
use vstd::prelude::*;

verus! {

/// Where the API is served.
pub const SOUNDCLOUD_API_V2: &'static str = "https://api-v2.soundcloud.com";

/// The path of the search call.
pub const SEARCH: &'static str = "/search";

/// The path under which each track is found by its id.
pub const TRACKS: &'static str = "/tracks/";

/// The request for the resource with the id `id`.
pub open spec fn track_request(client_id: Seq<char>, id: i64) -> RequestView {
    RequestView::get(SOUNDCLOUD_API_V2@ + TRACKS@ + decimal(id as int)).with(
        "client_id"@,
        client_id,
    )
}

/// The request that follows an encoding's URL to its stream.
pub open spec fn stream_request(client_id: Seq<char>, url: Seq<char>) -> RequestView {
    RequestView::get(url).with("client_id"@, client_id)
}

/// The request for the bytes at `url`. It carries no access token.
pub open spec fn bytes_request(url: Seq<char>) -> RequestView {
    RequestView::get(url)
}

/// The request for one page of search results.
pub open spec fn search_request(
    client_id: Seq<char>,
    query: Seq<char>,
    limit: i64,
    offset: i64,
) -> RequestView {
    RequestView::get(SOUNDCLOUD_API_V2@ + SEARCH@).with("client_id"@, client_id).with(
        "q"@,
        query,
    ).with("limit"@, decimal(limit as int)).with("offset"@, decimal(offset as int))
}

/// The resource that the text `body` describes, if it is JSON that
/// describes one.
pub open spec fn resource_in(body: Seq<char>) -> Option<ResourceView> {
    match parsed(body) {
        Some(json) => ResourceView::of(json),
        None => None,
    }
}

/// The stream that the text `body` describes, if it is JSON that describes
/// one.
pub open spec fn stream_in(body: Seq<char>) -> Option<StreamView> {
    match parsed(body) {
        Some(json) => StreamView::of(json),
        None => None,
    }
}

/// The page that the text `body` describes, if it is JSON that describes
/// one.
pub open spec fn collection_in(body: Seq<char>) -> Option<CollectionView> {
    match parsed(body) {
        Some(json) => CollectionView::of(json),
        None => None,
    }
}

/// The request for the resource with the id `id`.
pub fn get_track(client_id: &str, id: i64) -> (request: Request)
    ensures
        request@ == track_request(client_id@, id),
{
    let mut url = SOUNDCLOUD_API_V2.to_owned();
    url.append(TRACKS);
    url.append(to_decimal(id).as_str());
    Request::get(url.as_str()).query("client_id", client_id)
}

/// The request that follows `transcoding` to its stream. The URL is the
/// service's own and goes out as it came.
pub fn get_stream(client_id: &str, transcoding: &Transcoding) -> (request: Request)
    ensures
        request@ == stream_request(client_id@, transcoding@.url),
{
    let url = transcoding.url();
    Request::get(url.as_str()).query("client_id", client_id)
}

/// The request for the bytes at `url`.
pub fn get_bytes(url: &str) -> (request: Request)
    ensures
        request@ == bytes_request(url@),
{
    Request::get(url)
}

/// The request for the media that `stream` points to.
pub fn get_stream_bytes(stream: &Stream) -> (request: Request)
    ensures
        request@ == bytes_request(stream@.url),
{
    let url = stream.url();
    get_bytes(url.as_str())
}

/// The request for the page of at most `limit` results of `query` that
/// begins after the first `offset` results.
pub fn get_search(client_id: &str, query: &str, limit: i64, offset: i64) -> (request: Request)
    ensures
        request@ == search_request(client_id@, query@, limit, offset),
{
    let mut url = SOUNDCLOUD_API_V2.to_owned();
    url.append(SEARCH);
    Request::get(url.as_str()).query("client_id", client_id).query("q", query).query(
        "limit",
        to_decimal(limit).as_str(),
    ).query("offset", to_decimal(offset).as_str())
}

/// The text of a reply, or the failure that the reply stands for.
pub fn body_of(reply: Reply<String>) -> (body: Result<String, Error>)
    ensures
        reply matches Reply::Body(text) ==> body matches Ok(same) && same@ == text@,
        reply matches Reply::Failed(why) ==> body matches Err(Error::Ureq(said)) && said@ == why@,
        reply matches Reply::Unreadable(why) ==> body matches Err(Error::StdIo(said)) && said@
            == why@,
{
    match reply {
        Reply::Body(text) => Ok(text),
        Reply::Failed(why) => Err(Error::Ureq(why)),
        Reply::Unreadable(why) => Err(Error::StdIo(why)),
    }
}

/// What the reply to `get_track` gives: the resource in its body.
///
/// A failed request is a transport failure. A body that is not JSON, or is
/// JSON that describes no resource, is a decode failure.
pub fn read_track(reply: Reply<String>) -> (outcome: Result<Resource, Error>)
    ensures
        reply matches Reply::Body(text) ==> match resource_in(text@) {
            Some(resource) => outcome matches Ok(decoded) && decoded@ == resource,
            None => outcome matches Err(e) && e is StdIo && (parsed(text@) is Some
                ==> e.is_wrong_shape()),
        },
        reply matches Reply::Failed(why) ==> outcome matches Err(Error::Ureq(said)) && said@
            == why@,
        reply matches Reply::Unreadable(why) ==> outcome matches Err(Error::StdIo(said)) && said@
            == why@,
{
    let text = body_of(reply)?;
    let json = parse(text.as_str())?;
    Resource::from_json(&json)
}

/// What the reply to `get_stream` gives: the stream in its body.
pub fn read_stream(reply: Reply<String>) -> (outcome: Result<Stream, Error>)
    ensures
        reply matches Reply::Body(text) ==> match stream_in(text@) {
            Some(stream) => outcome matches Ok(decoded) && decoded@ == stream,
            None => outcome matches Err(e) && e is StdIo && (parsed(text@) is Some
                ==> e.is_wrong_shape()),
        },
        reply matches Reply::Failed(why) ==> outcome matches Err(Error::Ureq(said)) && said@
            == why@,
        reply matches Reply::Unreadable(why) ==> outcome matches Err(Error::StdIo(said)) && said@
            == why@,
{
    let text = body_of(reply)?;
    let json = parse(text.as_str())?;
    Stream::from_json(&json)
}

/// What the reply to `get_search` gives: the page in its body.
pub fn read_search(reply: Reply<String>) -> (outcome: Result<Collection, Error>)
    ensures
        reply matches Reply::Body(text) ==> match collection_in(text@) {
            Some(page) => outcome matches Ok(decoded) && decoded@ == page,
            None => outcome matches Err(e) && e is StdIo && (parsed(text@) is Some
                ==> e.is_wrong_shape()),
        },
        reply matches Reply::Failed(why) ==> outcome matches Err(Error::Ureq(said)) && said@
            == why@,
        reply matches Reply::Unreadable(why) ==> outcome matches Err(Error::StdIo(said)) && said@
            == why@,
{
    let text = body_of(reply)?;
    let json = parse(text.as_str())?;
    Collection::from_json(&json)
}

/// What the reply to `get_bytes` for `url` gives: the bytes, whole and
/// unchanged.
///
/// A failed request is a transport failure, never an empty buffer. A body
/// that broke off is reported with the URL it was asked from.
pub fn read_bytes(url: &str, reply: Reply<Vec<u8>>) -> (outcome: Result<Vec<u8>, Error>)
    ensures
        reply matches Reply::Body(bytes) ==> outcome == Ok::<Vec<u8>, Error>(bytes),
        reply matches Reply::Failed(why) ==> outcome matches Err(Error::Ureq(said)) && said@
            == why@,
        reply is Unreadable ==> (outcome matches Err(Error::InvalidData(asked)) && asked@ == url@),
{
    match reply {
        Reply::Body(bytes) => Ok(bytes),
        Reply::Failed(why) => Err(Error::Ureq(why)),
        Reply::Unreadable(_) => Err(Error::InvalidData(url.to_owned())),
    }
}

} // verus!
