//! Decision core of a cross-seed relay service.
//!
//! The library holds the verified logic of a webhook relay that sits between
//! a media manager (series or movie oriented), a cross-seed matching service,
//! a pair of torrent clients (seedbox and local) and a notification channel.
//! Every outbound call is network I/O and is performed by the surrounding
//! binary; this crate decides, for each inbound event, which calls to make,
//! in which order, with which payloads, and how the in-process dedup ledger
//! changes.

pub mod announce;
pub mod config;
pub mod errors;
pub mod event;
pub mod inject;
pub mod laws;
pub mod ledger;
pub mod routing;
pub mod state;
pub mod strutil;
