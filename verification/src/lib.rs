//! Rewrites remote fediverse URLs to their equivalent on a user's home
//! instance. A user registers a home instance (the registry keeps one
//! record per domain, surviving concurrent first logins), authenticates
//! against it over OAuth, receives a tamper-evident session token, and can
//! then have any remote URL resolved through the home instance's search
//! endpoint onto that instance.

use vstd::prelude::*;

pub mod config;
pub mod dirs;
pub mod encode;
pub mod error;
pub mod form;
pub mod layout;
pub mod models;
pub mod oauth;
pub mod registry;
pub mod remote;
pub mod rewrite;
pub mod session;
pub mod store;
pub mod string_ext;
pub mod text;
pub mod token;
pub mod web;

verus! {

/// Name the application presents to remote instances.
pub const NAME: &'static str = "Fediurl";

} // verus!
