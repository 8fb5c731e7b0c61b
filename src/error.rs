//! What can go wrong while loading a configuration, with where it went wrong.

use vstd::prelude::*;

verus! {

/// Every error names the place in the document where it arose: handler and
/// route positions are indices into `Config::handler` and `ConfigHandler::http`.
#[derive(Debug, Clone, PartialEq, Eq)]
pub enum ConfigError {
    /// The text is not well-formed in the serialization; `location` is the
    /// (line, column) that the parser reported, where it reported one.
    SyntaxError { message: String, location: Option<(usize, usize)> },
    /// A field that the schema requires is absent.
    MissingRequiredField { message: String, location: Option<(usize, usize)> },
    /// The document's `apiVersion` is not one this model knows.
    UnsupportedApiVersion { api_version: String },
    /// A `StringMatch` of the named match option sets zero or several strategies.
    SchemaViolation { handler: usize, route: usize, option: usize, match_name: String },
    /// Two listeners share this name.
    DuplicateKey { name: String },
    /// A handler refers to a listener that is not declared.
    DanglingReference { handler: usize, listener: String },
    /// A route's destination names a plugin that is not registered.
    UnknownPlugin { handler: usize, route: usize, plugin_name: String },
    /// A registered plugin rejected its payload, with the plugin's own message.
    PluginConfigInvalid { plugin_name: String, message: String },
}

} // verus!
