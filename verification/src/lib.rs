//! Declarative plugin configuration compiler.
//!
//! A plugin is described by an ordered configuration of recognized entries
//! (resources, messages, states, systems, dependencies, metadata). The
//! library parses that configuration once into a tagged representation and
//! derives three artifacts from it: the ordered registration calls against a
//! host builder, an immutable metadata record, and an optional set of
//! conformance checks. A runtime registry tracks installed plugins by a
//! stable identity token.

pub mod build_pass;
pub mod builder;
pub mod config;
pub mod deps;
pub mod laws;
pub mod meta_pass;
pub mod metadata;
pub mod plugin;
pub mod registry;
pub mod testgen;
pub mod text;

pub use builder::Builder;
pub use deps::MissingPluginError;
pub use metadata::PluginMetadata;
pub use metadata::PluginSystems;
pub use metadata::TypeInfo;
pub use plugin::PluginDef;
pub use registry::PluginRegistry;
