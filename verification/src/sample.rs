//! The decisions of a sample application: what it asks of the server, in
//! which order, and what it makes of the answers.

pub mod error;
pub mod config;
pub mod step;
pub mod contacts;
pub mod files;
pub mod setup;
pub mod manual;
