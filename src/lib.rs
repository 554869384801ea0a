//! Management-plane access to a ZeroTier node and to ZeroTier Central.
//!
//! - `client`: requests for the local node service API.
//! - `central`: requests for the cloud management API.
//! - `mcp`: the tool catalog, argument validation and the rendering of results.
//!
//! The library plans each HTTP exchange as a plain `HttpRequest`, classifies the
//! exchange's outcome, and renders decoded payloads as text; performing the
//! exchange itself is left to the caller.

pub mod text;
pub mod json;
pub mod rest;
pub mod client;
pub mod central;
pub mod mcp;
