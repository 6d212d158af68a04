//! The synthetic-monitoring service's endpoint builders.

pub mod list_synthetic_detail;

pub use list_synthetic_detail::ListSyntheticDetail;
