//! Native execution engine for an impersonating HTTP client embedded in a
//! managed host runtime.
//!
//! The host issues synchronous calls (create a client, execute a request,
//! read the next body chunk, cancel), while the network exchange itself runs
//! asynchronously on worker threads.  This crate holds the verified core of
//! that bridge: the client handle table, the request registry and its task
//! state machine, cancellation, the blocking pull bridge over the response
//! body, the host-symbol reference cache lifecycle, and the header
//! conversions across the boundary.  The unverifiable rim (FFI entry points,
//! the worker pool, the actual network exchange) drives these functions and
//! performs the actions they decide on.

#![allow(non_snake_case)]

pub mod certs;
pub mod config;
pub mod engine;
pub mod errors;
pub mod headers;
pub mod outside;
pub mod refcache;
pub mod requests;
pub mod source;
