//! A mail-client/server support library: a persistent record store for
//! client-side state, a shared server context with per-field locks, and
//! the mutual-reachability verification ("ctest") protocol that decides
//! whether a configured server address is genuinely reachable.

pub mod api;
pub mod app;
pub mod auth;
pub mod cli;
pub mod config;
pub mod connection;
pub mod credentials;
pub mod ctest;
pub mod data;
pub mod registration;
pub mod store;
pub mod text;
