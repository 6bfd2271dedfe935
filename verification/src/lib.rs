//! In-process interposition core for an application-whitelisting layer.
//!
//! The library evaluates hooked libc calls against a cached policy
//! database and decides whether each call is forwarded to the real
//! implementation or aborted with a synthetic error value.  All policy
//! decisions are made here, over plain values; the thin host shim
//! performs the process-level work (reading files, resolving symbols,
//! calling the real libc) that cannot be verified.

pub mod rows;
pub mod action;
pub mod auth;
pub mod db;
pub mod dispatch;
pub mod marshal;
pub mod numparse;
pub mod pathutil;
pub mod platform;
pub mod store;
pub mod util;
pub mod whitelist;
