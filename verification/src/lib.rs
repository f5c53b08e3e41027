//! A plugin management library.
//!
//! The library keeps a registry of plugin instances keyed by the name each
//! plugin reports for itself, optionally tagged with a group chosen at
//! registration time.  Activation turns a declarative manifest into an
//! ordered load plan and registers everything the loaded modules produce.
//! Opening a dynamic module and resolving its entry symbol is inherently
//! unsafe work; the library therefore exposes the activation protocol as a
//! step machine that tells its host which file to check and which module to
//! load, while all decisions stay here.

pub mod errors;
pub mod plugin;
pub mod plugin_structs;
pub mod manifest;
pub mod registry;
pub mod activation;
pub mod laws;

pub use errors::PluginError;
pub use plugin::Capability;
pub use plugin::Plugin;
pub use plugin::PluginInventory;
pub use plugin::Plugins;
pub use plugin_structs::BasicPlugin;
pub use plugin_structs::InventoryEntry;
pub use plugin_structs::InventoryPlugins;
pub use manifest::Instruction;
pub use manifest::Metadata;
pub use manifest::PluginEntry;
pub use registry::PluginManager;
pub use activation::Activation;
pub use activation::ActivationPhase;
pub use activation::LoaderAction;
pub use activation::LoaderEvent;
pub use registry::PluginInfo;
pub use registry::RegistryEntry;
