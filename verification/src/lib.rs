//! Bootstrap-and-launch utility for a local MCP bridge.
//!
//! The library decides how to make a bridge script available on disk
//! (installing a pinned package, or writing an embedded file once) and
//! builds the command descriptor that launches it against a fixed local
//! endpoint.  All filesystem, network and host-runtime work is performed
//! by the caller; the decisions themselves are verified here.

pub mod jira;
pub mod provision;
