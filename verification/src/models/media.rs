//! Where the media of an encoding can be fetched.

use crate::error::Error;
use crate::json::{text_of, Json};
use vstd::prelude::*;

verus! {

/// The answer to following an encoding's URL: the URL at which the media
/// itself can be fetched, without credentials.
#[derive(Debug)]
pub struct Stream {
    url: String,
}

/// What a `Stream` holds.
pub struct StreamView {
    pub url: Seq<char>,
}

impl View for Stream {
    type V = StreamView;

    closed spec fn view(&self) -> StreamView {
        StreamView { url: self.url@ }
    }
}

impl StreamView {
    /// The stream that the JSON value `json` describes, if it describes one:
    /// an object whose member `url` is a string.
    pub open spec fn of(json: Json) -> Option<StreamView> {
        match text_of(json.field("url"@)) {
            Some(url) => Some(StreamView { url }),
            None => None,
        }
    }
}

impl Clone for Stream {
    fn clone(&self) -> (copy: Self)
        ensures
            copy@ == self@,
    {
        Stream { url: self.url.clone() }
    }
}

impl Stream {
    /// Decodes a stream from a JSON value.
    pub fn from_json(json: &Json) -> (decoded: Result<Stream, Error>)
        ensures
            decoded matches Ok(stream) ==> StreamView::of(*json) == Some(stream@),
            decoded matches Err(e) ==> StreamView::of(*json) is None && e.is_wrong_shape(),
    {
        match json.text("url") {
            Some(url) => Ok(Stream { url }),
            None => Err(Error::wrong_shape()),
        }
    }

    /// The URL of the media itself.
    pub fn url(&self) -> (url: String)
        ensures
            url@ == self@.url,
    {
        self.url.clone()
    }
}

} // verus!
