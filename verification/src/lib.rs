//! Client-side logic of the xmlmc protocol: XML parameter assembly, the
//! method-call envelope, response bookkeeping and endpoint discovery rules.
//!
//! The library holds the state of one logical connection and decides what is
//! sent and what a reply means. Moving bytes over the network is left to the
//! caller, who hands replies back as plain values.

pub mod client;
pub mod cookie;
pub mod discovery;
pub mod escape;
pub mod headers;
pub mod laws;
pub mod names;
pub mod params;

pub use client::Xmlmc;
pub use escape::xmlencode;
pub use names::check_valid_xml;
pub use params::Attributes;
