//! Verified core of a payment-gateway front door.
//!
//! The library holds the decision logic of the gateway: the product
//! catalog with price resolution, the construction of each outbound
//! request to the upstream payment service, and the normalization of
//! every upstream outcome into the wire shapes the caller sees.
//! The surrounding process (HTTP plumbing, the network calls
//! themselves) lives outside and only feeds plain values in and out.

pub mod catalog;
pub mod jsonio;
pub mod numfmt;
pub mod proxy;
pub mod wire;

pub use catalog::Catalog;
pub use proxy::Config;
