//! Spotify listening-history logger: the verified core.
pub mod text;
pub mod time;
pub mod database;
pub mod spotify_data;
pub mod sync;
pub mod auth;
pub mod queries;
pub mod handle;
