//! Typed persistence layer for copy trading: providers, subscriptions and
//! positions kept in tables with checked schemas, string-coded enums, typed
//! filters and all-or-nothing bulk mutations.

pub mod error;
pub mod codec;
pub mod table;
pub mod models;
pub mod schema;
pub mod repository;
pub mod laws;
