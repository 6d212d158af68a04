//! The SMS service's endpoint builders.

pub mod query_send_statistics;

pub use query_send_statistics::QuerySendStatistics;
