//! Handlers for the login, lecture list, preflight and not-found routes,
//! and the error messages that every handler answers with.

pub mod lectures;
pub mod login;
pub mod not_found;
pub mod preflight;

pub mod error_messages;
