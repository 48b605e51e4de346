//! A synchronous gateway around an asynchronous, tag-addressed RPC
//! client, exposing a foreign-callable surface: blocking remote calls,
//! a fire-and-forget calling mode with a later callback, and
//! marshalling of text and record sequences into foreign-safe,
//! null-terminated views.
//!
//! This crate holds the verified core: the error bridge, the
//! marshalling layer, the tagged request descriptors, and the
//! validation and decision logic of the gateway facade. The transport
//! itself (connection, framing, scheduling) is an external
//! collaborator reached through a thin unverified shell around this
//! library.

pub mod error;
pub mod gateway;
pub mod interface_server;
pub mod marshal;
pub mod packer;

pub use error::NetXFFIError;
