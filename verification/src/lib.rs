//! Verified core of the Bufstack backend: the decisions of an authenticated
//! gRPC request gateway, stated as contracts and proved with Verus.
//!
//! - [`binder`] finds a port for the listener, with bounded retries.
//! - [`auth`] gates each request on its session credential.
//! - [`credentials`] turns a credential into the subject it stands for.
//! - [`keyset`] caches the identity provider's signing keys.
//! - [`metadata`], [`status`] and [`error`] hold what these speak of.
//! - [`greeter`] is the handler behind the gateway, [`config`] the
//!   configuration of the persistence layer.
//! - [`outside`] holds the calls into other crates, whose contracts are
//!   trusted.
//!
//! The library does no I/O: binding a socket, fetching keys and serving
//! requests are its caller's work.

pub mod auth;
pub mod binder;
pub mod config;
pub mod credentials;
pub mod error;
pub mod greeter;
pub mod keyset;
pub mod metadata;
pub mod outside;
pub mod status;
