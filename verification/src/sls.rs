//! The log-query service's endpoint builders.

pub mod get_logs_v2;

pub use get_logs_v2::GetLogsV2;
pub use get_logs_v2::GetLogsV2Response;
