//! A data-driven content registry: catalogs of game object definitions are
//! loaded from serialized manifests, tracked while they load, converted into
//! their final form, and looked up by identifiers derived from names.

pub mod asset_state;
pub mod engine;
pub mod identifier;
pub mod manifest;
pub mod plugin;
