//! Scanning of submitted content against a hot-reloadable set of YARA rules.
//!
//! Content comes as raw bytes, as a zip archive whose first entry is meant, or as the
//! outcome of an HTTP transfer. It is scanned against the ruleset that is active in a
//! rule store; the store is filled once from a directory of rule files and reloaded
//! from it at will, all or nothing. The library does no I/O: callers walk the
//! directory, run the transfer and hold the store behind the lock of their choice.

pub mod compress;
pub mod dto;
pub mod engine;
pub mod http;
pub mod server;
pub mod settings;
pub mod yara;
