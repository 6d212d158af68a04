//! A verified signing core for a cloud provider's HTTP APIs.
//!
//! The crate centers on `sign::RequestHeader`, a descriptor of one outbound
//! request whose headers and query parameters live in ordered containers and
//! whose canonicalization and HMAC-SHA256 signature are specified exactly.
//! Endpoint builders for the DNS, billing, SMS, log-query and monitoring
//! services populate the descriptor through the `sign::Api` capability
//! interface.

pub mod arms;
pub mod billing;
pub mod digest;
pub mod sign;
pub mod sls;
pub mod sms;
pub mod dns;
pub mod encode;
pub mod json;
pub mod params;
pub mod text;
