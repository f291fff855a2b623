//! The client: an access token that is resolved on first need and kept.

use crate::endpoints::{
    bytes_request, get_bytes, get_search, get_stream, get_track, search_request, stream_request,
    track_request,
};
use crate::error::Error;
use crate::models::resources::Transcoding;
use crate::resolver::{page_request, Resolution, ResolutionView};
use crate::transport::Request;
use vstd::prelude::*;

verus! {

/// A client of the service.
///
/// It is unauthenticated until a discovery has brought a token, and
/// authenticated with that token from then on. There is no way back: a
/// token that the service later rejects is not noticed here.
#[derive(Debug)]
pub struct Client {
    client_id: Option<String>,
}

impl View for Client {
    type V = Option<Seq<char>>;

    /// The token, once there is one.
    closed spec fn view(&self) -> Option<Seq<char>> {
        self.client_id.deep_view()
    }
}

/// What an operation that needs the token asks for next.
#[derive(Debug)]
pub enum Plan<T> {
    /// There is no token yet. Run this discovery, beginning with this
    /// request, hand what it comes to to `Client::settle`, and ask again.
    Resolve(Resolution, Request),
    /// The token is there: here is what was asked for.
    Ready(T),
}

impl<T> Plan<T> {
    /// This plan is to run a discovery from its start: the first thing to
    /// fetch is the landing page.
    pub open spec fn begins_discovery(self) -> bool {
        self matches Plan::Resolve(state, request) && state@ == ResolutionView::Page && request@
            == page_request()
    }
}

/// The token that is kept when a discovery that came to `outcome` is
/// settled on a client that holds `kept`: a token once kept stays, and a
/// failure leaves no trace.
pub open spec fn settled(kept: Option<Seq<char>>, outcome: Option<Seq<char>>) -> Option<
    Seq<char>,
> {
    if kept is Some {
        kept
    } else {
        outcome
    }
}

/// The token that is kept after the discoveries that came to `outcomes`, in
/// this order, were settled on a client that held `kept`.
pub open spec fn settled_all(kept: Option<Seq<char>>, outcomes: Seq<Option<Seq<char>>>) -> Option<
    Seq<char>,
>
    decreases outcomes.len(),
{
    if outcomes.len() == 0 {
        kept
    } else {
        settled(settled_all(kept, outcomes.drop_last()), outcomes.last())
    }
}

/// The token of a discovery's outcome, if it brought one.
pub open spec fn token_of(outcome: Result<String, Error>) -> Option<Seq<char>> {
    match outcome {
        Ok(token) => Some(token@),
        Err(_) => None,
    }
}

impl Client {
    /// A client without a token.
    pub fn new() -> (client: Client)
        ensures
            client@ is None,
    {
        Client { client_id: None }
    }

    /// Whether the token is there.
    pub fn is_authenticated(&self) -> (yes: bool)
        ensures
            yes == (self@ is Some),
    {
        self.client_id.is_some()
    }

    /// The start of a discovery: what an unauthenticated client asks for.
    fn resolve<T>() -> (plan: Plan<T>)
        ensures
            plan.begins_discovery(),
    {
        let (state, request) = Resolution::begin();
        Plan::Resolve(state, request)
    }

    /// The token, or the discovery that has to bring it first.
    pub fn client_id(&self) -> (plan: Plan<String>)
        ensures
            self@ matches Some(token) ==> plan matches Plan::Ready(kept) && kept@ == token,
            self@ is None ==> plan.begins_discovery(),
    {
        match &self.client_id {
            Some(token) => Plan::Ready(token.clone()),
            None => Client::resolve(),
        }
    }

    /// Takes what a discovery came to.
    ///
    /// On a client without a token, a token is kept and a failure is handed
    /// back, leaving the client as it was: the next call tries again. On a
    /// client that has a token, that token stays and is the answer, whatever
    /// the discovery came to.
    pub fn settle(&mut self, outcome: Result<String, Error>) -> (answer: Result<String, Error>)
        ensures
            final(self)@ == settled(old(self)@, token_of(outcome)),
            token_of(answer) == final(self)@,
            old(self)@ matches Some(token) ==> answer matches Ok(kept) && kept@ == token,
            old(self)@ is None ==> answer == outcome,
    {
        match &self.client_id {
            Some(token) => Ok(token.clone()),
            None => match outcome {
                Ok(token) => {
                    self.client_id = Some(token.clone());
                    Ok(token)
                },
                Err(e) => Err(e),
            },
        }
    }

    /// The request for the resource with the id `id`, or the discovery that
    /// has to bring the token first.
    pub fn track(&self, id: i64) -> (plan: Plan<Request>)
        ensures
            self@ matches Some(token) ==> plan matches Plan::Ready(request) && request@
                == track_request(token, id),
            self@ is None ==> plan.begins_discovery(),
    {
        match &self.client_id {
            Some(token) => Plan::Ready(get_track(token.as_str(), id)),
            None => Client::resolve(),
        }
    }

    /// The request that follows `transcoding` to its stream, or the
    /// discovery that has to bring the token first.
    pub fn stream(&self, transcoding: &Transcoding) -> (plan: Plan<Request>)
        ensures
            self@ matches Some(token) ==> plan matches Plan::Ready(request) && request@
                == stream_request(token, transcoding@.url),
            self@ is None ==> plan.begins_discovery(),
    {
        match &self.client_id {
            Some(token) => Plan::Ready(get_stream(token.as_str(), transcoding)),
            None => Client::resolve(),
        }
    }

    /// The request for the bytes at `url`. It needs no token.
    pub fn bytes(&self, url: &str) -> (request: Request)
        ensures
            request@ == bytes_request(url@),
    {
        get_bytes(url)
    }

    /// The request for one page of search results, or the discovery that
    /// has to bring the token first.
    pub fn search(&self, query: &str, limit: i64, offset: i64) -> (plan: Plan<Request>)
        ensures
            self@ matches Some(token) ==> plan matches Plan::Ready(request) && request@
                == search_request(token, query@, limit, offset),
            self@ is None ==> plan.begins_discovery(),
    {
        match &self.client_id {
            Some(token) => Plan::Ready(get_search(token.as_str(), query, limit, offset)),
            None => Client::resolve(),
        }
    }
}

impl Default for Client {
    fn default() -> (client: Client)
        ensures
            client@ is None,
    {
        Client::new()
    }
}

/// An authenticated client stays authenticated with the same token,
/// whatever later discoveries come to.
pub proof fn lemma_token_once_kept_stays(token: Seq<char>, outcomes: Seq<Option<Seq<char>>>)
    ensures
        settled_all(Some(token), outcomes) == Some(token),
    decreases outcomes.len(),
{
    if outcomes.len() > 0 {
        lemma_token_once_kept_stays(token, outcomes.drop_last());
    }
}

/// However many discoveries are settled on a fresh client, the token it
/// holds from the first that brought one on is the token of that one:
/// every caller after it is answered with the same token.
pub proof fn lemma_first_token_wins(outcomes: Seq<Option<Seq<char>>>, first: int)
    requires
        0 <= first < outcomes.len(),
        outcomes[first] is Some,
        forall|i: int| 0 <= i < first ==> outcomes[i] is None,
    ensures
        settled_all(None, outcomes) == outcomes[first],
        forall|n: int|
            first < n <= outcomes.len() ==> #[trigger] settled_all(None, outcomes.take(n))
                == outcomes[first],
{
    assert forall|n: int| first < n <= outcomes.len() implies #[trigger] settled_all(
        None,
        outcomes.take(n),
    ) == outcomes[first] by {
        lemma_settled_prefix(outcomes, first, n);
    }
    assert(outcomes.take(outcomes.len() as int) =~= outcomes);
}

/// A fresh client holds no token after a run of discoveries exactly when
/// every one of them failed: a failure is never kept, and never hides a
/// token.
pub proof fn lemma_no_token_iff_all_failed(outcomes: Seq<Option<Seq<char>>>)
    ensures
        settled_all(None, outcomes) is None <==> forall|i: int|
            0 <= i < outcomes.len() ==> outcomes[i] is None,
    decreases outcomes.len(),
{
    if outcomes.len() > 0 {
        lemma_no_token_iff_all_failed(outcomes.drop_last());
        if settled_all(None, outcomes) is None {
            assert forall|i: int| 0 <= i < outcomes.len() implies outcomes[i] is None by {
                if i < outcomes.len() - 1 {
                    assert(outcomes.drop_last()[i] == outcomes[i]);
                }
            }
        } else {
            if forall|i: int| 0 <= i < outcomes.len() ==> outcomes[i] is None {
                assert forall|i: int| 0 <= i < outcomes.drop_last().len() implies outcomes.drop_last()[i]
                    is None by {
                    assert(outcomes.drop_last()[i] == outcomes[i]);
                }
                assert(outcomes.last() == outcomes[outcomes.len() - 1]);
            }
        }
    }
}

/// Of callers that are served one at a time, in whatever order, one has to
/// run a discovery of its own exactly when every caller before it failed:
/// after the first token no discovery is run, and so the landing page is
/// asked for no more.
///
/// `outcomes[j]` is what the discovery of caller `j` comes to if it is run,
/// and caller `i` finds the client as the first `i` callers left it. That
/// the callers are served one at a time is for the holder of the client to
/// see to.
pub proof fn lemma_discovery_runs_only_after_failures(outcomes: Seq<Option<Seq<char>>>, i: int)
    requires
        0 <= i <= outcomes.len(),
    ensures
        settled_all(None, outcomes.take(i)) is None <==> forall|j: int|
            0 <= j < i ==> outcomes[j] is None,
{
    lemma_no_token_iff_all_failed(outcomes.take(i));
    assert forall|j: int| 0 <= j < i implies outcomes.take(i)[j] == outcomes[j] by {}
}

/// Where every discovery would bring the same token, every caller is
/// answered with that token, however many callers there are and in
/// whatever order they are served, and only the first of them runs a
/// discovery.
pub proof fn lemma_callers_agree_on_the_token(
    outcomes: Seq<Option<Seq<char>>>,
    token: Seq<char>,
)
    requires
        forall|j: int| 0 <= j < outcomes.len() ==> outcomes[j] == Some(token),
    ensures
        forall|n: int|
            1 <= n <= outcomes.len() ==> #[trigger] settled_all(None, outcomes.take(n)) == Some(
                token,
            ),
{
    assert forall|n: int| 1 <= n <= outcomes.len() implies #[trigger] settled_all(
        None,
        outcomes.take(n),
    ) == Some(token) by {
        lemma_settled_prefix(outcomes, 0, n);
    }
}

/// Where every discovery fails, every caller is answered with a failure,
/// however many callers there are and in whatever order they are served,
/// and the client holds no token afterwards.
pub proof fn lemma_callers_all_fail(outcomes: Seq<Option<Seq<char>>>)
    requires
        forall|j: int| 0 <= j < outcomes.len() ==> outcomes[j] is None,
    ensures
        forall|n: int|
            0 <= n <= outcomes.len() ==> (#[trigger] settled_all(None, outcomes.take(n))) is None,
{
    assert forall|n: int| 0 <= n <= outcomes.len() implies (#[trigger] settled_all(
        None,
        outcomes.take(n),
    )) is None by {
        lemma_discovery_runs_only_after_failures(outcomes, n);
    }
}

/// After the first discovery that brought a token, every longer run of
/// outcomes leaves that token.
proof fn lemma_settled_prefix(outcomes: Seq<Option<Seq<char>>>, first: int, n: int)
    requires
        0 <= first < n <= outcomes.len(),
        outcomes[first] is Some,
        forall|i: int| 0 <= i < first ==> outcomes[i] is None,
    ensures
        settled_all(None, outcomes.take(n)) == outcomes[first],
    decreases n,
{
    let prefix = outcomes.take(n);
    assert(prefix.drop_last() =~= outcomes.take(n - 1));
    assert(prefix.last() == outcomes[n - 1]);
    if n - 1 > first {
        lemma_settled_prefix(outcomes, first, n - 1);
    } else {
        lemma_no_token_iff_all_failed(outcomes.take(first));
    }
}

} // verus!
