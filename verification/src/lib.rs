//! Request handling for a small web service that fronts a university
//! learning-management site: it logs in on the user's behalf, lists the
//! lectures still to watch, gives the addresses of a lecture's videos,
//! marks a lecture as watched, and resets its viewing time.
//!
//! The library holds the decisions; the program around it performs the
//! network exchanges that the decisions ask for.

pub mod text;
pub mod utils;
pub mod pattern;
pub mod html;
pub mod models;
pub mod model;
pub mod exchange;
pub mod clients;
pub mod handler;
pub mod handlers;
pub mod router;
