//! Core of an HTTP Negotiate (SPNEGO) authentication middleware.
//!
//! The crate holds the pieces of the handshake that are independent of any
//! web framework or cryptographic engine: framing tokens in `Negotiate`
//! headers, the store of in-progress security contexts keyed by client
//! identifier, and the per-request negotiation state machine that decides
//! what each engine report does to the store and to the request's
//! authentication result.

pub mod codec;
pub mod engine;
pub mod store;

pub use engine::GssapiAuth;
