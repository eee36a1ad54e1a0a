//! The MONEI connector: payments by card, under a bearer token.

pub mod transformers;
