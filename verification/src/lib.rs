//! Decision and formatting logic of an Alfred workflow for Pinboard bookmarks.
//!
//! Everything here works on plain values; the command line front end in
//! `app/` performs the network, file and process work and hands the results
//! to these functions.

pub mod text;
pub mod item;
pub mod error;
pub mod cli;
pub mod workflow_config;
pub mod commands;
pub mod pins;
