//! Properties of the load pipeline that span several steps or all inputs.
use vstd::prelude::*;

use crate::controller::{
    invalid_url_detail, is_allowed_scheme, published, request_fetch, request_state,
    terminal_state, unsupported_scheme_detail, ControllerView, StateView,
};
use crate::error::ErrorView;
use crate::fetch::{decimal, is_success_status, response_outcome};
use crate::url_value::{parsed_url, placeholder_url, url_parse_outcome, UrlView};

verus! {

/// A request for an http or https URL publishes `Loading` for it, and the
/// fetch it starts ends in a terminal state published after it: whatever
/// the fetch gives, the observer receives `Loading(u)` and then the terminal
/// state, in that order.
pub proof fn loading_precedes_terminal(
    c: ControllerView,
    input: Seq<char>,
    fetched: Result<Seq<char>, ErrorView>,
)
    requires
        parsed_url(input) matches Some(u) && is_allowed_scheme(u.scheme),
    ensures
        request_fetch(input) == parsed_url(input),
        ({
            let u = parsed_url(input)->Some_0;
            let requested = published(c, request_state(input));
            let finished = published(requested, terminal_state(u, fetched));
            &&& requested.current == StateView::Loading(u)
            &&& finished.pending == c.pending + seq![StateView::Loading(u), terminal_state(u, fetched)]
        }),
{
    let u = parsed_url(input)->Some_0;
    let requested = published(c, request_state(input));
    let finished = published(requested, terminal_state(u, fetched));
    assert(finished.pending =~= c.pending + seq![StateView::Loading(u), terminal_state(u, fetched)]);
}

/// An input that does not parse as a URL is published as a `UrlParse` error
/// at the placeholder address, and nothing is fetched.
pub proof fn unparsable_input_is_not_fetched(c: ControllerView, input: Seq<char>)
    requires
        url_parse_outcome(input) is Err,
    ensures
        request_fetch(input) is None,
        published(c, request_state(input)).current == StateView::Error(
            placeholder_url(),
            ErrorView::UrlParse(invalid_url_detail(input, url_parse_outcome(input)->Err_0)),
        ),
        published(c, request_state(input)).pending == c.pending.push(request_state(input)),
{
}

/// A URL whose scheme is neither http nor https is published as a
/// `UrlParse` error at that URL, and nothing is fetched.
pub proof fn disallowed_scheme_is_not_fetched(c: ControllerView, input: Seq<char>)
    requires
        parsed_url(input) matches Some(u) && !is_allowed_scheme(u.scheme),
    ensures
        request_fetch(input) is None,
        published(c, request_state(input)).current == StateView::Error(
            parsed_url(input)->Some_0,
            ErrorView::UrlParse(unsupported_scheme_detail()),
        ),
{
}

/// A response whose status is outside the success range ends the fetch in
/// a `Network` error whose detail names the status code, right after the
/// prefix `HTTP Error: `.
pub proof fn error_status_names_code(code: u16)
    requires
        !is_success_status(code),
    ensures
        response_outcome(Ok(code)) matches Err(ErrorView::Network(detail))
            && detail.subrange(12, 12 + decimal(code as nat).len() as int) == decimal(code as nat),
{
    reveal_strlit("HTTP Error: ");
    let detail = response_outcome(Ok(code))->Err_0->Network_0;
    assert(detail.subrange(12, 12 + decimal(code as nat).len() as int) =~= decimal(code as nat));
}

/// Loading a URL that is already loaded starts over: `Loading` is published
/// again and the URL is fetched again; nothing is served from the page shown.
pub proof fn reload_fetches_again(c: ControllerView, input: Seq<char>, u: UrlView, text: Seq<char>)
    requires
        c.current == StateView::Loaded(u, text),
        parsed_url(input) == Some(u),
        is_allowed_scheme(u.scheme),
    ensures
        request_fetch(input) == Some(u),
        published(c, request_state(input)).current == StateView::Loading(u),
        published(c, request_state(input)).pending == c.pending.push(StateView::Loading(u)),
{
}

} // verus!
