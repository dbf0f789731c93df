//! Page-load core of the Exo browser shell.
//!
//! The library decides what a load request turns into: it validates the
//! address, classifies what the network answered, turns fetched text into
//! displayable output, and keeps the single current content state together
//! with the ordered list of snapshots that the shell still has to deliver.
//! The network itself, the task runtime and the update channel are driven by
//! the application around it.

pub mod controller;
pub mod error;
pub mod fetch;
pub mod laws;
pub mod render;
pub mod shell;
pub mod url_value;

pub use controller::{finish_load, BrowserController, ContentState, ControllerView, StateView};
pub use error::{ErrorView, ExoError};
pub use fetch::{classify_body, classify_response, decimal_text, status_line, CLIENT_USER_AGENT};
pub use render::{render_content, render_error, RenderOutput};
pub use shell::{Message, Shell};
pub use url_value::{Url, UrlView};
