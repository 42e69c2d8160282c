//! Article query and authorization composition for a social-publishing API.
//!
//! The library decides; the surrounding server performs storage and network
//! work and hands the outcomes back as plain values.
pub mod auth;
pub mod slug;
pub mod database;
pub mod articles;
pub mod query;
pub mod assemble;
pub mod statements;
pub mod profile;
pub mod comments;
pub mod tags;
pub mod model;
