//! The billing service's endpoint builders.

pub mod describe_instance_bill;
pub mod get_order_detail;
pub mod query_account_balance;
pub mod query_dp_utilization_detail;
pub mod query_orders;
pub mod query_resource_package_instances;

pub use describe_instance_bill::DescribeInstanceBill;
pub use get_order_detail::GetOrderDetail;
pub use query_account_balance::QueryAccountBalance;
pub use query_dp_utilization_detail::QueryDPUtilizationDetail;
pub use query_orders::QueryOrders;
pub use query_resource_package_instances::QueryResourcePackageInstances;
