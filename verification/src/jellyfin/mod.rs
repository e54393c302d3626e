//! The Jellyfin-compatible surface: header parsing, item shaping, playback
//! descriptions, session decisions and user records.

pub mod auth;
pub mod browse;
pub mod credits;
pub mod images;
pub mod items;
pub mod listing;
pub mod models;
pub mod playback;
pub mod queries;
pub mod rows;
pub mod session;
pub mod shape;
pub mod sources;
pub mod streams;
pub mod system;
pub mod users;
