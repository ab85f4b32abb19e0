//! Resolution of the `crates-lsp` language-server executable for an editor plugin: platform
//! naming, parsing of the configured version, extraction of release archives and the
//! resolution state machine.

pub mod archive;
pub mod error;
pub mod platform;
pub mod release;
pub mod resolver;
pub mod text;
pub mod version;
