//! Verified core of a terminal browser for Backlog issues: the data model,
//! the per-space application state, the key handling state machine, the
//! search and filter logic, and the text shown by the views.

pub mod models;
pub mod text;
pub mod config;
pub mod search;
pub mod event;
pub mod app;
pub mod status_filter;
pub mod mock;
pub mod api;
pub mod handler;
pub mod view;
pub mod laws;
