//! The page controller: the content state machine behind the address bar.
//!
//! A load request is validated and published at once, either as an error or
//! as `Loading`; a request that may go on hands its URL back to the caller,
//! which fetches it and reports the result through
//! [`BrowserController::complete_load`]. Publishing a state stores it as the
//! current one and queues a copy for the observer, in order.
use vstd::prelude::*;
use vstd::string::StringExecFns;

use crate::error::{ErrorView, ExoError};
use crate::render::{render_content, RenderOutput};
use crate::url_value::{parsed_url, placeholder_url, url_parse_outcome, Url, UrlView};

verus! {

/// The content that the page shows.
#[derive(Debug, Clone)]
pub enum ContentState {
    /// Nothing requested yet.
    Idle,
    /// A fetch of the URL is under way.
    Loading(Url),
    /// The URL was fetched and rendered.
    Loaded(Url, RenderOutput),
    /// The request for the URL failed.
    Error(Url, ExoError),
}

/// Mathematical model of a [`ContentState`]; a loaded page is its text.
pub enum StateView {
    Idle,
    Loading(UrlView),
    Loaded(UrlView, Seq<char>),
    Error(UrlView, ErrorView),
}

impl View for ContentState {
    type V = StateView;

    open spec fn view(&self) -> StateView {
        match self {
            ContentState::Idle => StateView::Idle,
            ContentState::Loading(u) => StateView::Loading(u@),
            ContentState::Loaded(u, out) => StateView::Loaded(u@, out.text_content@),
            ContentState::Error(u, e) => StateView::Error(u@, e@),
        }
    }
}

impl ContentState {
    /// A copy of this state.
    pub fn duplicate(&self) -> (r: ContentState)
        ensures
            r@ == self@,
    {
        match self {
            ContentState::Idle => ContentState::Idle,
            ContentState::Loading(u) => ContentState::Loading(u.duplicate()),
            ContentState::Loaded(u, out) => ContentState::Loaded(u.duplicate(), out.duplicate()),
            ContentState::Error(u, e) => ContentState::Error(u.duplicate(), e.duplicate()),
        }
    }
}

/// The schemes that may be fetched.
pub open spec fn is_allowed_scheme(scheme: Seq<char>) -> bool {
    scheme == "http"@ || scheme == "https"@
}

/// The detail of the error for an input that is not a URL.
pub open spec fn invalid_url_detail(input: Seq<char>, reason: Seq<char>) -> Seq<char> {
    "Invalid URL ["@ + input + "]: "@ + reason
}

/// The detail of the error for a URL whose scheme may not be fetched.
pub open spec fn unsupported_scheme_detail() -> Seq<char> {
    "scheme not supported"@
}

/// The state that a request to load `input` publishes at once.
pub open spec fn request_state(input: Seq<char>) -> StateView {
    match url_parse_outcome(input) {
        Err(reason) => StateView::Error(
            placeholder_url(),
            ErrorView::UrlParse(invalid_url_detail(input, reason)),
        ),
        Ok((text, scheme)) => if is_allowed_scheme(scheme) {
            StateView::Loading(UrlView { text, scheme })
        } else {
            StateView::Error(UrlView { text, scheme }, ErrorView::UrlParse(unsupported_scheme_detail()))
        },
    }
}

/// The URL that a request to load `input` fetches, if it fetches at all.
pub open spec fn request_fetch(input: Seq<char>) -> Option<UrlView> {
    match parsed_url(input) {
        Some(u) => if is_allowed_scheme(u.scheme) { Some(u) } else { None },
        None => None,
    }
}

/// The terminal state of a fetch of `url` that gave `fetched`.
pub open spec fn terminal_state(url: UrlView, fetched: Result<Seq<char>, ErrorView>) -> StateView {
    match fetched {
        Ok(body) => StateView::Loaded(url, body),
        Err(e) => StateView::Error(url, e),
    }
}

/// The model of a fetch result.
pub open spec fn fetched_view(fetched: Result<String, ExoError>) -> Result<Seq<char>, ErrorView> {
    match fetched {
        Ok(body) => Ok(body@),
        Err(e) => Err(e@),
    }
}

/// The state that a fetch of `url` ends in: the rendered body, or the error.
pub fn finish_load(url: Url, fetched: Result<String, ExoError>) -> (r: ContentState)
    ensures
        r@ == terminal_state(url@, fetched_view(fetched)),
{
    match fetched {
        Ok(body) => {
            let output = render_content(body.as_str());
            ContentState::Loaded(url, output)
        },
        Err(e) => ContentState::Error(url, e),
    }
}

/// Mathematical model of a [`BrowserController`]: the current state, and
/// the published states not yet taken by the observer, oldest first.
pub struct ControllerView {
    pub current: StateView,
    pub pending: Seq<StateView>,
}

/// The controller after publishing `s`.
pub open spec fn published(c: ControllerView, s: StateView) -> ControllerView {
    ControllerView { current: s, pending: c.pending.push(s) }
}

/// The owner of the current content state.
pub struct BrowserController {
    current_state: ContentState,
    pending: Vec<ContentState>,
}

impl View for BrowserController {
    type V = ControllerView;

    closed spec fn view(&self) -> ControllerView {
        ControllerView {
            current: self.current_state@,
            pending: self.pending@.map_values(|s: ContentState| s@),
        }
    }
}

impl BrowserController {
    /// A controller that shows nothing yet and has published nothing.
    pub fn new() -> (r: BrowserController)
        ensures
            r@.current == StateView::Idle,
            r@.pending == Seq::<StateView>::empty(),
    {
        let r = BrowserController { current_state: ContentState::Idle, pending: Vec::new() };
        assert(r@.pending =~= Seq::<StateView>::empty());
        r
    }

    /// The current content state.
    pub fn current_state(&self) -> (r: &ContentState)
        ensures
            r@ == self@.current,
    {
        &self.current_state
    }

    /// Stores `new_state` as the current state and queues a copy of it.
    fn update_state(&mut self, new_state: ContentState)
        ensures
            final(self)@ == published(old(self)@, new_state@),
    {
        self.current_state = new_state.duplicate();
        self.pending.push(new_state);
        assert(self@.pending =~= old(self)@.pending.push(new_state@));
    }

    /// Handles a request to load `url_string`.
    ///
    /// An input that is not a URL, or a URL whose scheme is neither `http`
    /// nor `https`, is published as an error and nothing is fetched.
    /// Otherwise `Loading` is published and the URL to fetch is returned;
    /// the caller fetches it and reports the result through
    /// [`BrowserController::complete_load`].
    pub fn load_url(&mut self, url_string: String) -> (r: Option<Url>)
        ensures
            final(self)@ == published(old(self)@, request_state(url_string@)),
            match request_fetch(url_string@) {
                Some(u) => r matches Some(url) && url@ == u,
                None => r is None,
            },
    {
        match Url::parse(url_string.as_str()) {
            Ok(url) => {
                if !url.has_scheme("http") && !url.has_scheme("https") {
                    proof {
                        reveal_strlit("http");
                        reveal_strlit("https");
                    }
                    let err = ExoError::UrlParse(String::from_str("scheme not supported"));
                    self.update_state(ContentState::Error(url, err));
                    return None;
                }
                proof {
                    reveal_strlit("http");
                    reveal_strlit("https");
                }
                self.update_state(ContentState::Loading(url.duplicate()));
                Some(url)
            },
            Err(reason) => {
                let detail = String::from_str("Invalid URL [")
                    .concat(url_string.as_str())
                    .concat("]: ")
                    .concat(reason.as_str());
                let err = ExoError::UrlParse(detail);
                self.update_state(ContentState::Error(Url::placeholder(), err));
                None
            },
        }
    }

    /// Publishes the terminal state of a fetch of `url` that gave `fetched`.
    pub fn complete_load(&mut self, url: Url, fetched: Result<String, ExoError>)
        ensures
            final(self)@ == published(old(self)@, terminal_state(url@, fetched_view(fetched))),
    {
        let state = finish_load(url, fetched);
        self.update_state(state);
    }

    /// Hands over the published states not yet taken, oldest first.
    pub fn take_updates(&mut self) -> (r: Vec<ContentState>)
        ensures
            r@.map_values(|s: ContentState| s@) == old(self)@.pending,
            r@.len() == old(self)@.pending.len(),
            final(self)@.current == old(self)@.current,
            final(self)@.pending == Seq::<StateView>::empty(),
    {
        let mut r: Vec<ContentState> = Vec::new();
        std::mem::swap(&mut r, &mut self.pending);
        assert(self@.pending =~= Seq::<StateView>::empty());
        r
    }
}

} // verus!
