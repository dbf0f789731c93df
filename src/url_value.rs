//! Validated absolute URLs.
use vstd::prelude::*;
use vstd::string::StringExecFns;

verus! {

/// What parsing `input` as an absolute URL gives: on success the URL's
/// serialization and its scheme, on failure the parser's description of
/// what is wrong.
pub uninterp spec fn url_parse_outcome(input: Seq<char>) -> Result<(Seq<char>, Seq<char>), Seq<char>>;

/// Relies on `url::Url::parse`, which depends on the input alone; the parsed
/// URL is handed back as `Url::as_str` and `Url::scheme`, the failure as the
/// text of its `url::ParseError`.
#[verifier::external_body]
fn parse_absolute(input: &str) -> (r: Result<(String, String), String>)
    ensures
        url_parse_outcome(input@) == match r {
            Ok((text, scheme)) => Ok::<(Seq<char>, Seq<char>), Seq<char>>((text@, scheme@)),
            Err(e) => Err(e@),
        },
{
    match url::Url::parse(input) {
        Ok(u) => Ok((u.as_str().to_string(), u.scheme().to_string())),
        Err(e) => Err(e.to_string()),
    }
}

/// An absolute URL, as its serialization and its scheme.
#[derive(Debug, Clone)]
pub struct Url {
    serialization: String,
    scheme: String,
}

/// Mathematical model of a [`Url`].
pub struct UrlView {
    pub text: Seq<char>,
    pub scheme: Seq<char>,
}

impl View for Url {
    type V = UrlView;

    closed spec fn view(&self) -> UrlView {
        UrlView { text: self.serialization@, scheme: self.scheme@ }
    }
}

/// The model of the URL that parsing `input` gives, if it parses.
pub open spec fn parsed_url(input: Seq<char>) -> Option<UrlView> {
    match url_parse_outcome(input) {
        Ok((text, scheme)) => Some(UrlView { text, scheme }),
        Err(_) => None,
    }
}

/// The address that stands in an error state when the input was not a URL
/// at all.
pub open spec fn placeholder_url() -> UrlView {
    UrlView { text: "exo://error"@, scheme: "exo"@ }
}

/// The address that a window shows while a request whose input is not a URL
/// is on its way to the controller.
pub open spec fn loading_placeholder_url() -> UrlView {
    UrlView { text: "exo://loading"@, scheme: "exo"@ }
}

impl Url {
    /// Parses `input` as an absolute URL; fails on anything that is not one.
    pub fn parse(input: &str) -> (r: Result<Url, String>)
        ensures
            match url_parse_outcome(input@) {
                Ok((text, scheme)) => r matches Ok(u) && u@ == (UrlView { text, scheme }),
                Err(msg) => r matches Err(e) && e@ == msg,
            },
    {
        match parse_absolute(input) {
            Ok((serialization, scheme)) => Ok(Url { serialization, scheme }),
            Err(e) => Err(e),
        }
    }

    /// The placeholder address `exo://error`, used where an input could not
    /// be parsed into a real URL.
    pub fn placeholder() -> (r: Url)
        ensures
            r@ == placeholder_url(),
    {
        Url { serialization: String::from_str("exo://error"), scheme: String::from_str("exo") }
    }

    /// The placeholder address `exo://loading`, shown while a request whose
    /// input is not a URL is being handled.
    pub fn loading_placeholder() -> (r: Url)
        ensures
            r@ == loading_placeholder_url(),
    {
        Url { serialization: String::from_str("exo://loading"), scheme: String::from_str("exo") }
    }

    /// The scheme, such as `https`.
    pub fn scheme(&self) -> (r: &str)
        ensures
            r@ == self@.scheme,
    {
        self.scheme.as_str()
    }

    /// Whether the scheme is exactly `scheme`.
    pub fn has_scheme(&self, scheme: &str) -> (r: bool)
        ensures
            r == (self@.scheme == scheme@),
    {
        self.scheme == String::from_str(scheme)
    }

    /// The full serialization.
    pub fn as_str(&self) -> (r: &str)
        ensures
            r@ == self@.text,
    {
        self.serialization.as_str()
    }

    /// The full serialization, as an owned string.
    pub fn to_string(&self) -> (r: String)
        ensures
            r@ == self@.text,
    {
        self.serialization.clone()
    }

    /// A copy of this URL.
    pub fn duplicate(&self) -> (r: Url)
        ensures
            r@ == self@,
    {
        Url { serialization: self.serialization.clone(), scheme: self.scheme.clone() }
    }
}

} // verus!
