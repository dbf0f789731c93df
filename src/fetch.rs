//! Classification of what the network answered to a page request.
//!
//! The request itself is sent by the application; it hands the outcome of
//! each step to the functions here, which decide whether the load goes on
//! and which error it ends with.
use vstd::prelude::*;
use vstd::string::StringExecFns;

use crate::error::{ErrorView, ExoError};

verus! {

/// The User-Agent header sent with every request.
pub const CLIENT_USER_AGENT: &'static str = "Mozilla/5.0 (X11; Linux x86_64) Exo/0.1.0";

/// The reason phrase registered for an HTTP status code, if any.
pub uninterp spec fn canonical_reason_of(code: u16) -> Option<Seq<char>>;

/// Relies on `StatusCode::canonical_reason` of the http crate, as reqwest
/// re-exports it: the registered reason phrase of the code, or none.
/// `StatusCode::from_u16` accepts every code in the range required here.
#[verifier::external_body]
fn canonical_reason(code: u16) -> (r: Option<String>)
    requires
        100 <= code < 1000,
    ensures
        canonical_reason_of(code) == match r {
            Some(s) => Some(s@),
            None => None::<Seq<char>>,
        },
{
    match reqwest::StatusCode::from_u16(code) {
        Ok(status) => status.canonical_reason().map(String::from),
        Err(_) => None,
    }
}

/// A status code in the success range.
pub open spec fn is_success_status(code: u16) -> bool {
    200 <= code < 300
}

/// The decimal digit for `d < 10`.
pub open spec fn digit_char(d: nat) -> char {
    if d == 0 { '0' }
    else if d == 1 { '1' }
    else if d == 2 { '2' }
    else if d == 3 { '3' }
    else if d == 4 { '4' }
    else if d == 5 { '5' }
    else if d == 6 { '6' }
    else if d == 7 { '7' }
    else if d == 8 { '8' }
    else { '9' }
}

/// The decimal representation of `n`, without leading zeros.
pub open spec fn decimal(n: nat) -> Seq<char>
    decreases n,
{
    if n < 10 {
        seq![digit_char(n)]
    } else {
        decimal(n / 10) + seq![digit_char(n % 10)]
    }
}

/// The reason phrase shown beside a code: the registered one, or a marker
/// for codes without one.
pub open spec fn reason_phrase(code: u16) -> Seq<char> {
    if 100 <= code < 1000 {
        match canonical_reason_of(code) {
            Some(reason) => reason,
            None => "<unknown status code>"@,
        }
    } else {
        "<unknown status code>"@
    }
}

/// A status line such as `404 Not Found`.
pub open spec fn status_text(code: u16) -> Seq<char> {
    decimal(code as nat) + " "@ + reason_phrase(code)
}

/// What a request that got no response, or one with status `code`, leads to.
pub open spec fn response_outcome(sent: Result<u16, Seq<char>>) -> Result<(), ErrorView> {
    match sent {
        Err(e) => Err(ErrorView::Network("Request failed: "@ + e)),
        Ok(code) => if is_success_status(code) {
            Ok(())
        } else {
            Err(ErrorView::Network("HTTP Error: "@ + status_text(code)))
        },
    }
}

/// What reading the body of a successful response leads to.
pub open spec fn body_outcome(read: Result<Seq<char>, Seq<char>>) -> Result<Seq<char>, ErrorView> {
    match read {
        Ok(body) => Ok(body),
        Err(e) => Err(ErrorView::Network("Failed to read response body: "@ + e)),
    }
}

fn digit_text(d: u16) -> (r: String)
    requires
        d < 10,
    ensures
        r@ == seq![digit_char(d as nat)],
{
    let s: &str = if d == 0 {
        proof { reveal_strlit("0"); }
        "0"
    } else if d == 1 {
        proof { reveal_strlit("1"); }
        "1"
    } else if d == 2 {
        proof { reveal_strlit("2"); }
        "2"
    } else if d == 3 {
        proof { reveal_strlit("3"); }
        "3"
    } else if d == 4 {
        proof { reveal_strlit("4"); }
        "4"
    } else if d == 5 {
        proof { reveal_strlit("5"); }
        "5"
    } else if d == 6 {
        proof { reveal_strlit("6"); }
        "6"
    } else if d == 7 {
        proof { reveal_strlit("7"); }
        "7"
    } else if d == 8 {
        proof { reveal_strlit("8"); }
        "8"
    } else {
        proof { reveal_strlit("9"); }
        "9"
    };
    assert(s@ =~= seq![digit_char(d as nat)]);
    String::from_str(s)
}

/// The decimal representation of `n`.
pub fn decimal_text(n: u16) -> (r: String)
    ensures
        r@ == decimal(n as nat),
    decreases n,
{
    if n < 10 {
        digit_text(n)
    } else {
        let high = decimal_text(n / 10);
        let low = digit_text(n % 10);
        high.concat(low.as_str())
    }
}

/// The status line of `code`: its decimal value and its reason phrase.
pub fn status_line(code: u16) -> (r: String)
    ensures
        r@ == status_text(code),
{
    let reason = if 100 <= code && code < 1000 {
        match canonical_reason(code) {
            Some(reason) => reason,
            None => String::from_str("<unknown status code>"),
        }
    } else {
        String::from_str("<unknown status code>")
    };
    decimal_text(code).concat(" ").concat(reason.as_str())
}

/// Decides, from the outcome of sending a request (the response status, or
/// the transport failure's description), whether the body is to be read.
pub fn classify_response(sent: Result<u16, String>) -> (r: Result<(), ExoError>)
    ensures
        r.is_ok() <==> (sent matches Ok(code) && is_success_status(code)),
        response_outcome(match sent {
            Ok(code) => Ok::<u16, Seq<char>>(code),
            Err(e) => Err(e@),
        }) == match r {
            Ok(()) => Ok::<(), ErrorView>(()),
            Err(e) => Err(e@),
        },
{
    match sent {
        Err(e) => Err(ExoError::Network(String::from_str("Request failed: ").concat(e.as_str()))),
        Ok(code) => {
            if 200 <= code && code < 300 {
                Ok(())
            } else {
                let line = status_line(code);
                Err(ExoError::Network(String::from_str("HTTP Error: ").concat(line.as_str())))
            }
        },
    }
}

/// Decides the result of a fetch from the outcome of reading the body.
pub fn classify_body(read: Result<String, String>) -> (r: Result<String, ExoError>)
    ensures
        r.is_ok() == read.is_ok(),
        body_outcome(match read {
            Ok(body) => Ok::<Seq<char>, Seq<char>>(body@),
            Err(e) => Err(e@),
        }) == match r {
            Ok(body) => Ok::<Seq<char>, ErrorView>(body@),
            Err(e) => Err(e@),
        },
{
    match read {
        Ok(body) => Ok(body),
        Err(e) => Err(
            ExoError::Network(String::from_str("Failed to read response body: ").concat(e.as_str())),
        ),
    }
}

} // verus!
