//! Verified core of the English-learning backend: prompt construction,
//! news-context formatting, AI payload extraction, request authentication
//! and the decision logic of the HTTP handlers.

pub mod text;
pub mod prompt;
pub mod news;
pub mod payload;
pub mod http;
pub mod auth;
pub mod generate;
pub mod store;
