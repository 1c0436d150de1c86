//! A bridging layer between authentication-module logic and the host
//! authentication framework: result codes, items and their wire forms, the
//! per-transaction context with its keyed data store, and hook dispatch.

pub mod constants;
pub mod cstr;
pub mod items;
pub mod module;
pub mod hooks;
