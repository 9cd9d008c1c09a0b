//! Decision logic of a bridge between a forum thread and an issue tracker:
//! how many pages a thread has, which replies are surfaced to the operator,
//! and what is sent to the tracker for a reply the operator confirms.

pub mod collector;
pub mod config;
pub mod headers;
pub mod pages;
pub mod posts;
pub mod requests;
pub mod text;
pub mod triage;
