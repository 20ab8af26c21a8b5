//! Verified core of a small anime library server: naming of video files,
//! ordering of listings, JSON rendering and MyAnimeList request building.

pub mod text;
pub mod structs;
pub mod naming;
pub mod order;
pub mod json;
pub mod mal;
pub mod listing;
pub mod config;
