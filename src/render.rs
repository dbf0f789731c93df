//! Turns fetched content, or a failure, into displayable output.
//!
//! The transformation of page content is a pass-through for now: the text
//! that was fetched is the text that is shown.
use vstd::prelude::*;
use vstd::string::StringExecFns;

use crate::error::{error_debug, ErrorView, ExoError};

verus! {

/// Displayable output derived from fetched content.
#[derive(Debug, Clone)]
pub struct RenderOutput {
    pub text_content: String,
}

impl RenderOutput {
    /// A copy of this output.
    pub fn duplicate(&self) -> (r: RenderOutput)
        ensures
            r.text_content@ == self.text_content@,
    {
        RenderOutput { text_content: self.text_content.clone() }
    }
}

/// The text shown for a failed load: a heading, then the error's debug form.
pub open spec fn error_rendering(e: ErrorView) -> Seq<char> {
    "Error loading page:\n\n"@ + error_debug(e)
}

/// Renders fetched page content: the content itself, unchanged.
pub fn render_content(html_content: &str) -> (r: RenderOutput)
    ensures
        r.text_content@ == html_content@,
{
    RenderOutput { text_content: String::from_str(html_content) }
}

/// Renders a failure as a human-readable page.
pub fn render_error(error: &ExoError) -> (r: RenderOutput)
    ensures
        r.text_content@ == error_rendering(error@),
{
    let shown = error.debug_form();
    RenderOutput { text_content: String::from_str("Error loading page:\n\n").concat(shown.as_str()) }
}

} // verus!
