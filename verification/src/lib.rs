//! Request signing and status normalisation for payment connectors.
//!
//! The crate turns a processor-agnostic payment or refund instruction into the
//! body and the signed header set of an outbound HTTP request, and turns the
//! processor's answer back into a processor-agnostic result. Every function
//! carries a contract over a mathematical model of its arguments.

pub mod errors;
pub mod primitives;
pub mod secret;
pub mod signature;
pub mod currency;
pub mod domain;
pub mod request;
pub mod amount;
pub mod configs;
pub mod connector;
pub mod monei;
pub mod nordea;
