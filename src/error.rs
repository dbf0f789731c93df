//! Classified failures of the page-load pipeline.
use vstd::prelude::*;
use vstd::string::StringExecFns;

verus! {

/// A classified failure, each variant with a human-readable detail.
#[derive(Debug, Clone)]
pub enum ExoError {
    /// Transport failure, non-success HTTP status or unreadable body.
    Network(String),
    /// Malformed input or a scheme that is not allowed.
    UrlParse(String),
    /// Failure inside the controller or the surrounding application.
    Core(String),
    /// Catch-all, reserved.
    Unknown,
}

/// Mathematical model of an [`ExoError`]: the variant and its detail text.
pub enum ErrorView {
    Network(Seq<char>),
    UrlParse(Seq<char>),
    Core(Seq<char>),
    Unknown,
}

impl View for ExoError {
    type V = ErrorView;

    open spec fn view(&self) -> ErrorView {
        match self {
            ExoError::Network(d) => ErrorView::Network(d@),
            ExoError::UrlParse(d) => ErrorView::UrlParse(d@),
            ExoError::Core(d) => ErrorView::Core(d@),
            ExoError::Unknown => ErrorView::Unknown,
        }
    }
}

/// The one-line description of an error: a fixed prefix per variant,
/// followed by the detail.
pub open spec fn error_message(e: ErrorView) -> Seq<char> {
    match e {
        ErrorView::Network(d) => "Network error: "@ + d,
        ErrorView::UrlParse(d) => "URL parsing error: "@ + d,
        ErrorView::Core(d) => "Browser core error: "@ + d,
        ErrorView::Unknown => "Unknown error"@,
    }
}

/// What `{:?}` writes for a string: the text quoted, with quotes,
/// backslashes and unprintable characters escaped.
pub uninterp spec fn debug_str_of(s: Seq<char>) -> Seq<char>;

/// Relies on std's `Debug` for `str`, whose output depends on the text alone.
#[verifier::external_body]
fn debug_text(s: &str) -> (r: String)
    ensures
        r@ == debug_str_of(s@),
{
    format!("{:?}", s)
}

/// The debug form of an error: the variant's name, with its detail quoted
/// in parentheses where it has one.
pub open spec fn error_debug(e: ErrorView) -> Seq<char> {
    match e {
        ErrorView::Network(d) => "Network("@ + debug_str_of(d) + ")"@,
        ErrorView::UrlParse(d) => "UrlParse("@ + debug_str_of(d) + ")"@,
        ErrorView::Core(d) => "Core("@ + debug_str_of(d) + ")"@,
        ErrorView::Unknown => "Unknown"@,
    }
}

impl ExoError {
    /// A copy of this error with the same variant and detail.
    pub fn duplicate(&self) -> (r: ExoError)
        ensures
            r@ == self@,
    {
        match self {
            ExoError::Network(d) => ExoError::Network(d.clone()),
            ExoError::UrlParse(d) => ExoError::UrlParse(d.clone()),
            ExoError::Core(d) => ExoError::Core(d.clone()),
            ExoError::Unknown => ExoError::Unknown,
        }
    }

    /// The detail text, where the variant carries one.
    pub fn detail(&self) -> (r: Option<&str>)
        ensures
            match self@ {
                ErrorView::Network(d) => r matches Some(s) && s@ == d,
                ErrorView::UrlParse(d) => r matches Some(s) && s@ == d,
                ErrorView::Core(d) => r matches Some(s) && s@ == d,
                ErrorView::Unknown => r is None,
            },
    {
        match self {
            ExoError::Network(d) => Some(d.as_str()),
            ExoError::UrlParse(d) => Some(d.as_str()),
            ExoError::Core(d) => Some(d.as_str()),
            ExoError::Unknown => None,
        }
    }

    /// The debug form of this error, such as `Network("timed out")`.
    pub fn debug_form(&self) -> (r: String)
        ensures
            r@ == error_debug(self@),
    {
        match self {
            ExoError::Network(d) => String::from_str("Network(").concat(debug_text(d.as_str()).as_str()).concat(")"),
            ExoError::UrlParse(d) => String::from_str("UrlParse(").concat(debug_text(d.as_str()).as_str()).concat(")"),
            ExoError::Core(d) => String::from_str("Core(").concat(debug_text(d.as_str()).as_str()).concat(")"),
            ExoError::Unknown => String::from_str("Unknown"),
        }
    }

    /// The human-readable description of this error.
    pub fn message(&self) -> (r: String)
        ensures
            r@ == error_message(self@),
    {
        match self {
            ExoError::Network(d) => String::from_str("Network error: ").concat(d.as_str()),
            ExoError::UrlParse(d) => String::from_str("URL parsing error: ").concat(d.as_str()),
            ExoError::Core(d) => String::from_str("Browser core error: ").concat(d.as_str()),
            ExoError::Unknown => String::from_str("Unknown error"),
        }
    }
}

} // verus!
