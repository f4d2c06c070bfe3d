//! The error of one plugin on one batch, with the plugin's name attached.

use vstd::prelude::*;

verus! {

/// A failure of a named plugin while it processed a batch.
#[derive(Debug)]
pub struct ProcessingError {
    pub plugin_name: &'static str,
    pub details: String,
    /// The underlying error, rendered as text, where there is one.
    pub source: Option<String>,
}

impl ProcessingError {
    /// The error of the named plugin, with its details and, where there is
    /// one, the error beneath it.
    pub fn new(plugin_name: &'static str, details: String, source: Option<String>) -> (error:
        ProcessingError)
        ensures
            error.plugin_name == plugin_name,
            error.details == details,
            error.source == source,
    {
        ProcessingError { plugin_name, details, source }
    }

    /// The error as a line of text.
    pub fn message(&self) -> (text: String)
        ensures
            text@ == "Processing error in plugin "@ + self.plugin_name@ + ": "@ + self.details@,
    {
        "Processing error in plugin ".to_owned().concat(self.plugin_name).concat(": ").concat(
            self.details.as_str(),
        )
    }
}

} // verus!
