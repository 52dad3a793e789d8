//! Foreground-application usage tracking.
//!
//! The library's core is a segment state machine: it reconciles two sampled
//! signals (foreground-app identity and screen-lock state) into a sequence of
//! closed, non-overlapping usage segments. Persistence of closed segments and
//! daily reporting sit behind a thin recorder built on SQLite.

pub mod db;
pub mod laws;
pub mod lock_monitor;
pub mod tracker;
