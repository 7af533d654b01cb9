//! Verified core of an autonomous e-commerce browsing agent.
//!
//! The crate models the agent loop that drives a headless browser: the
//! closed action vocabulary and its page-state snapshots, the tab cache
//! keyed by canonical base addresses, the tolerant decision parser that
//! turns oracle text into structured decisions, the monitoring counters,
//! and the loop's termination and failure bookkeeping.  Browser I/O, the
//! decision-oracle backend and persistence are outside collaborators:
//! they are reached through narrow trusted wrappers or left to the
//! surrounding application.

pub mod actions;
pub mod address;
pub mod agent;
pub mod config;
pub mod errors;
pub mod html;
pub mod llm_service;
pub mod monitor;
pub mod parser;
pub mod product;
pub mod site;
pub mod tabs;
pub mod text;
