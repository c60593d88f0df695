//! The records of the package format and the builders that assemble them.

pub mod forgemod;
pub mod manifest;
pub mod v1;
