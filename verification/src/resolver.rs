//! Discovery of the access token.
//!
//! The service hands out no token. Its landing page loads scripts, and one
//! of them holds the token as a literal. Discovery fetches the page, picks
//! the scripts that may hold the token, and reads them one by one until one
//! does.
//!
//! The names and contents of those scripts change without notice, so a
//! failure here is an ordinary, typed outcome.

use crate::error::{Error, ErrorKind};
use crate::pattern::{capture_of, find_all, first_capture, matches_of, texts};
use crate::text::{contains, ends_with, is_suffix, occurs};
use crate::transport::{Reply, Request, RequestView, SOUNDCLOUD};
use vstd::prelude::*;

verus! {

/// Matches anything that looks like an `https` URL. The names of the scripts
/// are not known beforehand, so the search is wide on purpose.
pub const URL_PATTERN: &'static str =
    r"(https)://[\w-]+(\.[\w-]+)+([\w.,@?^=%&amp;:/~+#-]*[\w@?^=%&amp;/~+#-])?";

/// Matches the token where a script sets it; its first group is the token.
pub const TOKEN_PATTERN: &'static str = r#",client_id:"(.*?)""#;

/// Where the service keeps the scripts of its own pages.
pub const ASSETS: &'static str = "https://a-v2.sndcdn.com/assets/";

/// How the address of a script ends.
pub const SCRIPT_SUFFIX: &'static str = ".js";

/// A URL that may lead to the token: it lies under the service's own assets
/// and ends as a script does.
pub open spec fn is_candidate(url: Seq<char>) -> bool {
    occurs(ASSETS@, url) && is_suffix(SCRIPT_SUFFIX@, url)
}

/// Of the URLs `found`, those that may lead to the token, in the same order.
pub open spec fn candidates(found: Seq<Seq<char>>) -> Seq<Seq<char>> {
    found.filter(|url: Seq<char>| is_candidate(url))
}

/// The token that the script `script` sets, if it sets one.
pub open spec fn token_in(script: Seq<char>) -> Option<Seq<char>> {
    match capture_of(TOKEN_PATTERN@, script, 1) {
        Some(Some(token)) => Some(token),
        _ => None,
    }
}

/// Selection keeps candidates only, keeps every one of them, and so never
/// keeps more URLs than were found.
pub proof fn lemma_selection_keeps_the_candidates(found: Seq<Seq<char>>)
    ensures
        candidates(found).len() <= found.len(),
        forall|i: int|
            0 <= i < candidates(found).len() ==> is_candidate(#[trigger] candidates(found)[i]),
        forall|i: int|
            0 <= i < found.len() && is_candidate(found[i]) ==> candidates(found).contains(
                #[trigger] found[i],
            ),
{
    let keep = |url: Seq<char>| is_candidate(url);
    found.lemma_filter_len(keep);
    assert forall|i: int| 0 <= i < candidates(found).len() implies is_candidate(
        #[trigger] candidates(found)[i],
    ) by {
        found.lemma_filter_pred(keep, i);
    }
    assert forall|i: int| 0 <= i < found.len() && is_candidate(found[i]) implies candidates(
        found,
    ).contains(#[trigger] found[i]) by {
        found.lemma_filter_contains(keep, i);
    }
}

/// Whether `url` may lead to the token.
pub fn is_script_candidate(url: &str) -> (yes: bool)
    ensures
        yes == is_candidate(url@),
{
    contains(url, ASSETS) && ends_with(url, SCRIPT_SUFFIX)
}

/// Keeps of the URLs `found` those that may lead to the token, in the order
/// in which they were found.
pub fn select_candidates(found: Vec<String>) -> (selected: Vec<String>)
    ensures
        texts(selected@) == candidates(texts(found@)),
{
    let mut selected: Vec<String> = Vec::new();
    let mut i: usize = 0;
    proof {
        reveal(Seq::filter);
        assert(texts(found@).take(0) =~= Seq::empty());
        assert(texts(selected@) =~= Seq::empty());
    }
    while i < found.len()
        invariant
            i <= found.len(),
            texts(selected@) == candidates(texts(found@).take(i as int)),
        decreases found.len() - i,
    {
        proof {
            let before = texts(found@).take(i as int);
            let now = texts(found@).take(i + 1);
            assert(now.drop_last() =~= before);
            assert(now.last() == found@[i as int]@);
            reveal(Seq::filter);
        }
        let ghost kept = selected@;
        if is_script_candidate(found[i].as_str()) {
            selected.push(found[i].clone());
            assert(texts(selected@) =~= texts(kept).push(found@[i as int]@));
        }
        i += 1;
    }
    assert(texts(found@).take(found@.len() as int) =~= texts(found@));
    selected
}

/// Looks for the token in a script.
///
/// A script in which the pattern finds nothing holds no token. Neither does
/// any script should the pattern fail to compile: the script is passed over.
pub fn extract_token(script: &str) -> (token: Option<String>)
    ensures
        token.deep_view() == token_in(script@),
{
    match first_capture(TOKEN_PATTERN, script, 1) {
        Ok(Some(token)) => Some(token),
        Ok(None) => None,
        Err(_) => None,
    }
}

/// How far a discovery has come.
///
/// It waits either for the landing page or for one of the candidate
/// scripts. Every value is a state that `advance` takes.
#[derive(Debug)]
pub struct Resolution {
    stage: Stage,
}

/// What a discovery holds: nothing while it waits for the landing page,
/// then the candidates and the position of the one it waits for.
#[derive(Debug)]
enum Stage {
    Page,
    Scripts { candidates: Vec<String>, position: usize },
}

/// What a `Resolution` waits for.
pub enum ResolutionView {
    /// The landing page.
    Page,
    /// The first of these candidate scripts; the others are still to be
    /// tried, in this order.
    Scripts(Seq<Seq<char>>),
}

impl View for Resolution {
    type V = ResolutionView;

    closed spec fn view(&self) -> ResolutionView {
        match self.stage {
            Stage::Page => ResolutionView::Page,
            Stage::Scripts { candidates, position } => if position <= candidates@.len() {
                ResolutionView::Scripts(texts(candidates@).skip(position as int))
            } else {
                ResolutionView::Scripts(Seq::empty())
            },
        }
    }
}

/// What to do next in a discovery.
#[derive(Debug)]
pub enum Step {
    /// Make this request and hand its reply to `advance` on this state.
    Fetch(Resolution, Request),
    /// The discovery is over: here is the token, or why there is none.
    Done(Result<String, Error>),
}

/// What a `Step` says.
pub enum StepView {
    Fetch(ResolutionView, RequestView),
    Token(Seq<char>),
    Fail(ErrorKind),
}

impl View for Step {
    type V = StepView;

    open spec fn view(&self) -> StepView {
        match self {
            Step::Fetch(state, request) => StepView::Fetch(state@, request@),
            Step::Done(Ok(token)) => StepView::Token(token@),
            Step::Done(Err(e)) => StepView::Fail(e.class()),
        }
    }
}

/// What a reply of text holds.
pub open spec fn reply_view(reply: Reply<String>) -> Reply<Seq<char>> {
    match reply {
        Reply::Failed(why) => Reply::Failed(why),
        Reply::Unreadable(why) => Reply::Unreadable(why),
        Reply::Body(text) => Reply::Body(text@),
    }
}

/// The request for the landing page.
pub open spec fn page_request() -> RequestView {
    RequestView::get(SOUNDCLOUD@)
}

/// With the candidates `remaining` still to try: fetch the first of them,
/// or give up when there is none.
pub open spec fn try_next(remaining: Seq<Seq<char>>) -> StepView {
    if remaining.len() > 0 {
        StepView::Fetch(ResolutionView::Scripts(remaining), RequestView::get(remaining[0]))
    } else {
        StepView::Fail(ErrorKind::Unresolved)
    }
}

/// The step after the landing page, given the URLs `found` in it: `None`
/// stands for a URL pattern that did not compile.
pub open spec fn after_page(found: Option<Seq<Seq<char>>>) -> StepView {
    match found {
        Some(urls) => try_next(candidates(urls)),
        None => StepView::Fail(ErrorKind::PatternCompile),
    }
}

/// The step after the first of the candidates `remaining` was tried, given
/// the token found in it, if any: the token ends the discovery at once,
/// and without one the next candidate is tried.
pub open spec fn after_script(remaining: Seq<Seq<char>>, token: Option<Seq<char>>) -> StepView {
    match token {
        Some(found) => StepView::Token(found),
        None => if remaining.len() > 0 {
            try_next(remaining.skip(1))
        } else {
            StepView::Fail(ErrorKind::Unresolved)
        },
    }
}

/// The step that follows when a discovery in the state `state` gets the
/// reply `reply`.
///
/// A landing page that cannot be had ends the discovery. A candidate
/// script that cannot be had is passed over.
pub open spec fn next_step(state: ResolutionView, reply: Reply<Seq<char>>) -> StepView {
    match state {
        ResolutionView::Page => match reply {
            Reply::Failed(_) => StepView::Fail(ErrorKind::Transport),
            Reply::Unreadable(_) => StepView::Fail(ErrorKind::Decode),
            Reply::Body(page) => after_page(matches_of(URL_PATTERN@, page)),
        },
        ResolutionView::Scripts(remaining) => match reply {
            Reply::Body(script) => after_script(remaining, token_in(script)),
            _ => after_script(remaining, None),
        },
    }
}

impl Resolution {
    /// Begins a discovery: the first thing to fetch is the landing page.
    pub fn begin() -> (start: (Resolution, Request))
        ensures
            start.0@ == ResolutionView::Page,
            start.1@ == page_request(),
    {
        (Resolution { stage: Stage::Page }, Request::get(SOUNDCLOUD))
    }

    /// The step that tries the candidate at `position`, or gives up when
    /// there is none left.
    fn try_from(candidates: Vec<String>, position: usize) -> (step: Step)
        requires
            position <= candidates@.len(),
        ensures
            step@ == try_next(texts(candidates@).skip(position as int)),
    {
        if position < candidates.len() {
            let request = Request::get(candidates[position].as_str());
            Step::Fetch(Resolution { stage: Stage::Scripts { candidates, position } }, request)
        } else {
            Step::Done(Err(Error::Unknown))
        }
    }

    /// The step after the landing page, given what the search for URLs in
    /// it came to.
    pub fn after_page(found: Result<Vec<String>, String>) -> (step: Step)
        ensures
            step@ == after_page(
                match found {
                    Ok(urls) => Some(texts(urls@)),
                    Err(_) => None,
                },
            ),
            found matches Err(why) ==> step matches Step::Done(Err(Error::Regex(said))) && said@
                == why@,
    {
        match found {
            Ok(urls) => {
                let selected = select_candidates(urls);
                assert(texts(selected@).skip(0) =~= texts(selected@));
                Resolution::try_from(selected, 0)
            },
            Err(why) => Step::Done(Err(Error::Regex(why))),
        }
    }

    /// The step after a candidate script was tried, given the token found
    /// in it, if any. A discovery that still waits for the landing page has
    /// no candidates.
    pub fn after_script(self, token: Option<String>) -> (step: Step)
        ensures
            step@ == after_script(
                match self@ {
                    ResolutionView::Scripts(remaining) => remaining,
                    ResolutionView::Page => Seq::empty(),
                },
                token.deep_view(),
            ),
    {
        match token {
            Some(found) => Step::Done(Ok(found)),
            None => match self.stage {
                Stage::Page => Step::Done(Err(Error::Unknown)),
                Stage::Scripts { candidates, position } => {
                    if position < candidates.len() {
                        proof {
                            let all = texts(candidates@);
                            assert(all.skip(position as int).skip(1) =~= all.skip(position + 1));
                        }
                        Resolution::try_from(candidates, position + 1)
                    } else {
                        Step::Done(Err(Error::Unknown))
                    }
                },
            },
        }
    }

    /// Takes the reply to the request that the last step asked for, and
    /// says what to do next.
    pub fn advance(self, reply: Reply<String>) -> (step: Step)
        ensures
            step@ == next_step(self@, reply_view(reply)),
            reply matches Reply::Failed(why) ==> (self@ is Page ==> (step matches Step::Done(
                Err(Error::Ureq(said)),
            ) && said@ == why@)),
            reply matches Reply::Unreadable(why) ==> (self@ is Page ==> (step matches Step::Done(
                Err(Error::StdIo(said)),
            ) && said@ == why@)),
    {
        match self.stage {
            Stage::Page => match reply {
                Reply::Failed(why) => Step::Done(Err(Error::Ureq(why))),
                Reply::Unreadable(why) => Step::Done(Err(Error::StdIo(why))),
                Reply::Body(page) => Resolution::after_page(find_all(URL_PATTERN, page.as_str())),
            },
            Stage::Scripts { .. } => match reply {
                Reply::Body(script) => {
                    let token = extract_token(script.as_str());
                    self.after_script(token)
                },
                _ => self.after_script(None),
            },
        }
    }
}

/// The token of the first of the candidates `remaining` whose script can be
/// had and holds one, where `world` says what comes back for each request.
pub open spec fn first_token(
    remaining: Seq<Seq<char>>,
    world: spec_fn(RequestView) -> Reply<Seq<char>>,
) -> Option<Seq<char>>
    decreases remaining.len(),
{
    if remaining.len() == 0 {
        None
    } else {
        let found = match world(RequestView::get(remaining[0])) {
            Reply::Body(script) => token_in(script),
            _ => None,
        };
        if found is Some {
            found
        } else {
            first_token(remaining.skip(1), world)
        }
    }
}

/// What a discovery comes to, where `world` says what comes back for each
/// request: the failure of the landing page, or else the token of the first
/// candidate that yields one, or else that there is none.
pub open spec fn resolved(world: spec_fn(RequestView) -> Reply<Seq<char>>) -> StepView {
    match world(page_request()) {
        Reply::Failed(_) => StepView::Fail(ErrorKind::Transport),
        Reply::Unreadable(_) => StepView::Fail(ErrorKind::Decode),
        Reply::Body(page) => match matches_of(URL_PATTERN@, page) {
            None => StepView::Fail(ErrorKind::PatternCompile),
            Some(urls) => match first_token(candidates(urls), world) {
                Some(token) => StepView::Token(token),
                None => StepView::Fail(ErrorKind::Unresolved),
            },
        },
    }
}

/// Whether a step asks for the landing page: 1 if so, else 0.
pub open spec fn pages_left(step: StepView) -> nat {
    match step {
        StepView::Fetch(ResolutionView::Page, _) => 1,
        _ => 0,
    }
}

/// A bound on the scripts that are fetched from a step on.
pub open spec fn scripts_left(step: StepView) -> nat {
    match step {
        StepView::Fetch(ResolutionView::Scripts(remaining), _) => remaining.len() + 1,
        _ => 0,
    }
}

/// Where the steps lead from `step` on, each request being answered as
/// `world` says.
pub open spec fn run(step: StepView, world: spec_fn(RequestView) -> Reply<Seq<char>>) -> StepView
    decreases pages_left(step), scripts_left(step),
{
    match step {
        StepView::Fetch(state, request) => run(next_step(state, world(request)), world),
        _ => step,
    }
}

/// Trying candidates one after the other ends with the token of the first
/// that yields one, and fails as unresolved when none does.
pub proof fn lemma_run_finds_first_token(
    remaining: Seq<Seq<char>>,
    world: spec_fn(RequestView) -> Reply<Seq<char>>,
)
    ensures
        run(try_next(remaining), world) == match first_token(remaining, world) {
            Some(token) => StepView::Token(token),
            None => StepView::Fail(ErrorKind::Unresolved),
        },
    decreases remaining.len(),
{
    reveal_with_fuel(run, 2);
    if remaining.len() > 0 {
        lemma_run_finds_first_token(remaining.skip(1), world);
    }
}

/// A discovery that is begun and advanced until it is done comes to exactly
/// `resolved(world)`, whatever comes back for its requests.
pub proof fn lemma_run_is_resolved(world: spec_fn(RequestView) -> Reply<Seq<char>>)
    ensures
        run(StepView::Fetch(ResolutionView::Page, page_request()), world) == resolved(world),
{
    reveal_with_fuel(run, 2);
    match world(page_request()) {
        Reply::Body(page) => match matches_of(URL_PATTERN@, page) {
            Some(urls) => {
                lemma_run_finds_first_token(candidates(urls), world);
            },
            None => {},
        },
        _ => {},
    }
}

/// Every step after a script brings the end nearer: a discovery asks for no
/// more scripts than there are candidates, and for each at most once.
pub proof fn lemma_each_step_brings_the_end_nearer(
    remaining: Seq<Seq<char>>,
    reply: Reply<Seq<char>>,
)
    ensures
        scripts_left(next_step(ResolutionView::Scripts(remaining), reply)) <= remaining.len(),
        next_step(ResolutionView::Scripts(remaining), reply) matches StepView::Fetch(state, request)
            ==> remaining.len() >= 2 && state == ResolutionView::Scripts(remaining.skip(1))
            && request == RequestView::get(remaining[1]),
{
}

/// A candidate that cannot be had, or that holds no token, does not end the
/// discovery: when the next one holds a token, that token is the outcome.
pub proof fn lemma_failed_candidate_falls_back(
    remaining: Seq<Seq<char>>,
    world: spec_fn(RequestView) -> Reply<Seq<char>>,
    script: Seq<char>,
    token: Seq<char>,
)
    requires
        remaining.len() >= 2,
        !(world(RequestView::get(remaining[0])) matches Reply::Body(first) && token_in(first)
            is Some),
        world(RequestView::get(remaining[1])) == Reply::Body(script),
        token_in(script) == Some(token),
    ensures
        first_token(remaining, world) == Some(token),
        run(try_next(remaining), world) == StepView::Token(token),
{
    assert(remaining.skip(1)[0] == remaining[1]);
    assert(first_token(remaining.skip(1), world) == Some(token));
    lemma_run_finds_first_token(remaining, world);
}

/// A landing page in which no URL is a candidate leaves the token
/// unresolved: the failure is neither one of transport nor one of decoding.
pub proof fn lemma_no_candidate_is_unresolved(
    world: spec_fn(RequestView) -> Reply<Seq<char>>,
    page: Seq<char>,
    urls: Seq<Seq<char>>,
)
    requires
        world(page_request()) == Reply::Body(page),
        matches_of(URL_PATTERN@, page) == Some(urls),
        candidates(urls).len() == 0,
    ensures
        next_step(ResolutionView::Page, Reply::Body(page)) == StepView::Fail(
            ErrorKind::Unresolved,
        ),
        resolved(world) == StepView::Fail(ErrorKind::Unresolved),
{
}

} // verus!
