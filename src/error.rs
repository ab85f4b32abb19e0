use vstd::prelude::*;

verus! {

/// The ways in which resolving the language-server executable can fail.
#[derive(Debug, Clone, Copy, PartialEq, Eq, Structural)]
pub enum ErrorKind {
    /// The host reported an operating system or architecture that has no release build.
    UnsupportedPlatform,
    /// The configured version is neither `latest`, a semantic version, nor an existing path.
    InvalidVersion,
    /// The HTTP request for the release archive failed.
    NetworkFailure,
    /// The archive could not be unpacked, or the executable could not be stored.
    ExtractionFailure,
    /// The locator of the executable could not be formed as a URI.
    UriConstructionFailure,
}

/// A failure, with the text that caused it or the underlying cause.
#[derive(Debug, Clone, PartialEq, Eq)]
pub struct PluginError {
    pub kind: ErrorKind,
    pub detail: String,
}

impl View for PluginError {
    type V = (ErrorKind, Seq<char>);

    open spec fn view(&self) -> (ErrorKind, Seq<char>) {
        (self.kind, self.detail@)
    }
}

impl PluginError {
    pub fn new(kind: ErrorKind, detail: String) -> (r: PluginError)
        ensures
            r@ == (kind, detail@),
    {
        PluginError { kind, detail }
    }
}

} // verus!
