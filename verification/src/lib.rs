//! Burning-pro server: the curation rules behind the phrase database.
//!
//! The crate holds the decisions of the server and proves them: how submitted
//! forms become typed records, how a stored set of associations is brought in
//! line with a submitted one, how rows become the public feed, and which answer
//! a request gets.  Talking to the database, the network and the template
//! engine is left to the program that embeds the crate.
#![allow(unused_imports)]

pub mod admin;
pub mod app;
pub mod db;
pub mod good_phrase;
pub mod models;
pub mod text;
pub mod time;
