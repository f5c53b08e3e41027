//! The failure taxonomy of the library.
//!
//! Every recoverable fault of loading, activation and registry lookup is a
//! variant of [`PluginError`].  A duplicate identity is reported as
//! [`PluginError::DuplicateIdentity`]; hosts treat it as a build or
//! packaging defect and are expected to terminate on it rather than recover.

use vstd::prelude::*;

verus! {

/// Why a loading, activation or registry operation failed.
#[derive(Debug)]
pub enum PluginError {
    /// A manifest-specified path does not exist on disk.  Carries the path.
    FileNotFound(String),
    /// The native loader rejected the module.  Carries the loader's message.
    LoadError(String),
    /// The module lacks the expected entry symbol.  Carries the loader's
    /// message.
    SymbolNotFound(String),
    /// A lookup missed: no plugin is registered under the identifier.
    NotFound(String),
    /// A downcast was asked for a concrete type the plugin does not have.
    /// Carries the identifier of the plugin.
    TypeMismatch(String),
    /// Two plugins report the same identity.  Carries the identity.  This is
    /// a fatal configuration defect: hosts abort on it, they never recover.
    DuplicateIdentity(String),
    /// The manifest holds no plugin configuration at all.
    ManifestMissing,
    /// A plugin's own execution failed.  Carries the plugin's message.
    Execution(String),
}

} // verus!
