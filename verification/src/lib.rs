//! Staleness analysis for a chat inventory: a classifier over bounded
//! message samples, decision logic for walking joined and left chats, and
//! the lifecycle of the bulk-export session that reading left chats needs.
//!
//! All remote calls (listing dialogs, fetching messages, opening and closing
//! the export session) are suspension points owned by the surrounding
//! application; this crate holds the decisions between them, stated and
//! proved over plain values.

pub mod classify;
pub mod cli_models;
pub mod clock;
pub mod config;
pub mod invite;
pub mod joined;
pub mod left;
pub mod message;
pub mod service;
pub mod session;
pub mod verdict;
