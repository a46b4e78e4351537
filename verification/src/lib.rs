//! Session-based authentication core for a media-catalog backend.
//!
//! The library models the authoritative identity/session state, credential
//! verification, session issuance with a fixed two-hour expiry, and
//! per-request authorization.  The catalog data models (games and movies)
//! and their string codecs live beside it.  HTTP transport and persistent
//! storage are left to the surrounding application.

pub mod auth_errors;
pub mod auth_models;
pub mod auth_store;
pub mod authentication_services;
pub mod clock;
pub mod game;
mod ids;
pub mod movie;
pub mod service_errors;
mod text;
