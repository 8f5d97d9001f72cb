//! The core of a browser that reaches blockchain-registered zones.
//!
//! The heart of the crate is name resolution: which path answers for a
//! domain (by its top-level label), a cache whose entries expire with time,
//! and the normalisation of what the name service or conventional DNS
//! answers into one record type. Around it stand the browser's settings, the
//! decisions of a web view, and the state behind the interface.
//!
//! The crate does no network or file I/O and draws nothing. Whoever drives it
//! makes the requests and hands back what came of them.

pub mod address;
pub mod browser_state;
pub mod cache;
mod clock;
pub mod config;
pub mod error;
mod ident;
pub mod laws;
pub mod record;
pub mod resolver;
pub mod service;
pub mod startup;
pub mod text;
pub mod ui;
pub mod webview;
pub mod zone;
