//! Verified core of a Jellyfin-compatible media-server bridge: request-header
//! parsing, item shaping, stream descriptions and query planning.

pub mod text;
pub mod numbers;
pub mod jellyfin;
mod outside;
