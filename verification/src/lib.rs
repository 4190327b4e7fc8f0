//! Core engine of a lyrics-overlay companion for a music-playback service.
//!
//! The library holds the coordination logic: the token lifecycle of the
//! playback session, the polling loop's change detection and retry policy,
//! the LRU lyrics cache with its negative-caching rules, and the event
//! dispatcher's decisions. Network transport, secure storage, and the
//! presentation layer live outside the library and talk to it through
//! plain values.

pub mod auth;
pub mod cache;
pub mod dispatch;
pub mod error;
pub mod lyrics;
pub mod poller;
pub mod text;
pub mod track;
