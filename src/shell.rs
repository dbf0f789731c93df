//! The state of the browser window around the page: the address bar and the
//! content shown, and how each user or core event changes them.
use vstd::prelude::*;
use vstd::string::StringExecFns;

use crate::controller::{ContentState, StateView};
use crate::error::error_debug;
use crate::url_value::{loading_placeholder_url, parsed_url, Url};

verus! {

/// An event for the window.
#[derive(Debug, Clone)]
pub enum Message {
    /// The text of the address bar changed.
    UrlInputChanged(String),
    /// The user asked to load the address in the address bar.
    LoadButtonPressed,
    /// The core published a new content state.
    ContentUpdate(ContentState),
}

/// The address bar's text and the content state on screen.
pub struct Shell {
    pub url_input: String,
    pub current_state: ContentState,
}

/// The state a window shows as soon as loading `input` is asked for: the
/// parsed address, or a placeholder where the input is not a URL. What the
/// controller makes of the request arrives later as a content update.
pub open spec fn requested_state(input: Seq<char>) -> StateView {
    match parsed_url(input) {
        Some(u) => StateView::Loading(u),
        None => StateView::Loading(loading_placeholder_url()),
    }
}

/// The text shown in the content area for a state.
pub open spec fn content_text(s: StateView) -> Seq<char> {
    match s {
        StateView::Idle => "Enter a URL and click 'Go'."@,
        StateView::Loading(u) => "Loading "@ + u.text + "..."@,
        StateView::Loaded(_, text) => text,
        StateView::Error(_, e) => "Error: "@ + error_debug(e),
    }
}

impl Shell {
    /// A window with `initial_input` in the address bar and nothing loaded.
    pub fn new(initial_input: String) -> (r: Shell)
        ensures
            r.url_input@ == initial_input@,
            r.current_state@ == StateView::Idle,
    {
        Shell { url_input: initial_input, current_state: ContentState::Idle }
    }

    /// Applies `message`. On a load request the window shows `Loading` at
    /// once and the address to hand to the controller is returned.
    pub fn update(&mut self, message: Message) -> (r: Option<String>)
        ensures
            match message {
                Message::UrlInputChanged(v) => {
                    &&& final(self).url_input@ == v@
                    &&& final(self).current_state@ == old(self).current_state@
                    &&& r is None
                },
                Message::LoadButtonPressed => {
                    &&& final(self).url_input@ == old(self).url_input@
                    &&& final(self).current_state@ == requested_state(old(self).url_input@)
                    &&& r matches Some(input) && input@ == old(self).url_input@
                },
                Message::ContentUpdate(s) => {
                    &&& final(self).url_input@ == old(self).url_input@
                    &&& final(self).current_state@ == s@
                    &&& r is None
                },
            },
    {
        match message {
            Message::UrlInputChanged(value) => {
                self.url_input = value;
                None
            },
            Message::LoadButtonPressed => {
                let shown = match Url::parse(self.url_input.as_str()) {
                    Ok(url) => url,
                    Err(_) => Url::loading_placeholder(),
                };
                self.current_state = ContentState::Loading(shown);
                Some(self.url_input.clone())
            },
            Message::ContentUpdate(new_state) => {
                self.current_state = new_state;
                None
            },
        }
    }

    /// The text shown in the content area.
    pub fn content_text(&self) -> (r: String)
        ensures
            r@ == content_text(self.current_state@),
    {
        match &self.current_state {
            ContentState::Idle => String::from_str("Enter a URL and click 'Go'."),
            ContentState::Loading(url) => String::from_str("Loading ").concat(url.as_str()).concat("..."),
            ContentState::Loaded(_, output) => output.text_content.clone(),
            ContentState::Error(_, error) => String::from_str("Error: ").concat(error.debug_form().as_str()),
        }
    }
}

} // verus!
