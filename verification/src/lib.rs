//! Decisions of the Musicboxd server.

pub mod albums;
pub mod catalog;
pub mod follow;
pub mod headers;
pub mod ids;
pub mod json;
pub mod oauth;
pub mod profile;
pub mod rate_limit;
pub mod ratings;
pub mod refresh;
pub mod relevance;
pub mod search;
pub mod session;
pub mod signin;
pub mod spotify;
pub mod store;
pub mod text;
pub mod username;
pub mod view;
