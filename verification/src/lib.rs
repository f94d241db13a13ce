//! Verified core of the z8run lance seam and the WASM plugin runtime.
//!
//! The library holds the decisions of the two halves: the handle registry
//! and node configuration of the lance seam, and the manifest rules and
//! plugin table of the runtime. Everything that touches disk, locks, or the
//! reporting engine lives outside it and hands plain values in.
pub mod text;
pub mod error;
pub mod json;
pub mod table;
pub mod manifest;
pub mod plugins;
pub mod install;
pub mod plan;
pub mod envelope;
pub mod boundary;
pub mod stats;
pub mod handles;
pub mod nodes;

pub use envelope::{Envelope, Role};
pub use handles::LanceRegistry;
pub use manifest::{is_valid_plugin_name, ManifestPort, PluginCapabilities, PluginManifest};
pub use nodes::{factory, LanceNode, LanceNodeFactory};
pub use plugins::{PluginRegistry, RegisteredPlugin};
pub use stats::RegistryStats;
