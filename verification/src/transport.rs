//! Requests as values, and what comes back for them.
//!
//! The crate makes no request itself. It describes each one as a `Request`;
//! whoever carries it out hands the outcome back as a `Reply`.

use vstd::prelude::*;

verus! {

/// The site whose pages and scripts lead to the access token.
pub const SOUNDCLOUD: &'static str = "https://soundcloud.com";

/// The browser that every request claims to come from.
pub const USER_AGENT: &'static str =
    "Mozilla/5.0 (Windows NT 10.0; Win64; x64; rv:132.0) Gecko/20100101 Firefox/132.0";

/// A name with its value: a header, or a parameter of a query.
pub type Pair = (String, String);

/// What a list of pairs holds.
pub open spec fn pair_views(pairs: Seq<Pair>) -> Seq<(Seq<char>, Seq<char>)> {
    Seq::new(pairs.len(), |i: int| (pairs[i].0@, pairs[i].1@))
}

/// The headers that every request carries, whatever it asks for: the service
/// answers differently to a client that does not look like a browser.
pub open spec fn identification() -> Seq<(Seq<char>, Seq<char>)> {
    seq![("Origin"@, SOUNDCLOUD@), ("Referer"@, SOUNDCLOUD@), ("User-Agent"@, USER_AGENT@)]
}

/// The headers that every request carries.
pub fn identification_headers() -> (headers: Vec<Pair>)
    ensures
        pair_views(headers@) == identification(),
{
    let mut headers: Vec<Pair> = Vec::new();
    headers.push(("Origin".to_owned(), SOUNDCLOUD.to_owned()));
    headers.push(("Referer".to_owned(), SOUNDCLOUD.to_owned()));
    headers.push(("User-Agent".to_owned(), USER_AGENT.to_owned()));
    assert(pair_views(headers@) =~= identification());
    headers
}

/// One `GET` request.
#[derive(Debug)]
pub struct Request {
    url: String,
    query: Vec<Pair>,
}

/// What a `Request` asks for.
///
/// A request keeps no headers of its own: the headers of its view are the
/// identification headers by definition, and `Request::headers` hands out
/// exactly these. Whoever sends a request takes them from there, or from
/// `identification_headers`, and from nowhere else.
pub struct RequestView {
    pub url: Seq<char>,
    pub query: Seq<(Seq<char>, Seq<char>)>,
    pub headers: Seq<(Seq<char>, Seq<char>)>,
}

impl RequestView {
    /// The request for `url` with no query.
    pub open spec fn get(url: Seq<char>) -> RequestView {
        RequestView { url, query: Seq::empty(), headers: identification() }
    }

    /// This request with one more parameter at the end of its query.
    pub open spec fn with(self, name: Seq<char>, value: Seq<char>) -> RequestView {
        RequestView { url: self.url, query: self.query.push((name, value)), headers: self.headers }
    }
}

impl View for Request {
    type V = RequestView;

    closed spec fn view(&self) -> RequestView {
        RequestView { url: self.url@, query: pair_views(self.query@), headers: identification() }
    }
}

impl Clone for Request {
    fn clone(&self) -> (copy: Self)
        ensures
            copy@ == self@,
    {
        let mut query: Vec<Pair> = Vec::new();
        let mut i: usize = 0;
        while i < self.query.len()
            invariant
                i <= self.query.len(),
                query@.len() == i,
                forall|k: int|
                    0 <= k < i ==> query@[k].0@ == self.query@[k].0@ && query@[k].1@
                        == self.query@[k].1@,
            decreases self.query.len() - i,
        {
            query.push((self.query[i].0.clone(), self.query[i].1.clone()));
            i += 1;
        }
        assert(pair_views(query@) =~= pair_views(self.query@));
        Request { url: self.url.clone(), query }
    }
}

impl Request {
    /// The request for `url` with no query.
    pub fn get(url: &str) -> (request: Request)
        ensures
            request@ == RequestView::get(url@),
    {
        let request = Request { url: url.to_owned(), query: Vec::new() };
        assert(pair_views(request.query@) =~= Seq::empty());
        request
    }

    /// Adds one parameter at the end of the query.
    pub fn query(self, name: &str, value: &str) -> (request: Request)
        ensures
            request@ == self@.with(name@, value@),
    {
        let mut request = self;
        let ghost before = request.query@;
        request.query.push((name.to_owned(), value.to_owned()));
        assert(pair_views(request.query@) =~= pair_views(before).push((name@, value@)));
        request
    }

    /// The address asked for, without its query.
    pub fn url(&self) -> (url: String)
        ensures
            url@ == self@.url,
    {
        self.url.clone()
    }

    /// The parameters of the query, in order.
    pub fn parameters(&self) -> (parameters: Vec<Pair>)
        ensures
            pair_views(parameters@) == self@.query,
    {
        self.clone().query
    }

    /// The headers to send: the same for every request.
    pub fn headers(&self) -> (headers: Vec<Pair>)
        ensures
            pair_views(headers@) == self@.headers,
    {
        identification_headers()
    }
}

/// What came back for a request.
#[derive(Debug)]
pub enum Reply<T> {
    /// The request failed: there was no response, or one with a status
    /// outside 2xx. Holds the HTTP layer's description.
    Failed(String),
    /// A response arrived but its body could not be read to the end. Holds
    /// a description.
    Unreadable(String),
    /// The whole body.
    Body(T),
}

} // verus!
