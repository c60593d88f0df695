//! A versioned, self-describing binary package format for mods: the manifest
//! schema, the envelope that pairs a manifest with its payload, the builders
//! that assemble both, and the codec that packs an envelope into a compressed
//! byte stream and reads it back.

pub mod compress;
pub mod structs;
pub mod version;
pub mod wire;
