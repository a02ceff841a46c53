//! Verified core of a small collection of web services: article text
//! analysis, input sanitising, password and token authentication decisions,
//! the bubble-sort race with its counters, HTTP status decisions, and the
//! state machine of the user-management front end.

pub mod analysis;
pub mod auth;
pub mod frontend;
pub mod race;
pub mod sanitize;
pub mod service;
pub mod text;
