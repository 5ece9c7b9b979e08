//! Decision logic of a multi-tenant upload gateway.
//!
//! Clients post files; the gateway authenticates the caller against a
//! per-tenant API token, names the object, uploads it to cloud storage with an
//! OAuth2 service-account token and answers with a download link, which it can
//! also mirror into chat channels.
//!
//! This crate holds every rule of that pipeline as verified functions on plain
//! values. Network and file I/O live with the caller: where a step needs the
//! outside world, the functions here say which request to make and what each
//! possible reply leads to.

pub mod app_arguments;
pub mod app_config;
pub mod auth_token_provider;
pub mod error;
pub mod handlers;
pub mod helpers;
pub mod json;
pub mod metrics;
pub mod oauth2;
pub mod outside;
pub mod project;
pub mod text;
pub mod types;
