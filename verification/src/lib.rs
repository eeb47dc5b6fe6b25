//! Verified core of the PayPlan platform: authentication and authorization
//! decisions, request validation, status codes, event payload handling,
//! projection planning, the engine cascade and the administration UI rules.

pub mod text;
pub mod errors;
pub mod roles;
pub mod codes;
pub mod tokens;
pub mod session;
pub mod accounts;
pub mod passwords;
pub mod requests;
pub mod ui;
pub mod shell;
pub mod events;
pub mod jobs;
pub mod cascade;
pub mod projections;
pub mod config;
pub mod admin;
pub mod stores;
pub mod routes;
