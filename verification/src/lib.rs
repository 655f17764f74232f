//! Request policy of a small static-asset server that hosts a single-page
//! application: which requests go to the greeting endpoint, which go to the
//! static file service, and what is answered when that service finds no file.
//!
//! Nothing here touches a socket or a file. The caller performs the outside
//! work (asking the static file service, reading the application shell) and
//! hands the results in as plain values; every decision is a function with a
//! proved contract.

pub mod api;
pub mod config;
pub mod exchange;
pub mod fallback;
pub mod http;
pub mod routes;
pub mod text;
