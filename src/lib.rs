//! Core logic of a desktop IPTV player's helper services: locating and
//! installing the external media tools it needs, and looking up and caching
//! movie metadata from a remote movie database.

pub mod text;
pub mod title;
pub mod deps;
pub mod install;
pub mod tmdb;
