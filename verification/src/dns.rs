//! The DNS service's endpoint builders.

pub mod add_domain_record;
pub mod describe_domain_records;
pub mod describe_domains;
pub mod set_domain_record_status;

pub use add_domain_record::AddDomainRecord;
pub use add_domain_record::AddDomainRecordResponse;
pub use describe_domain_records::DescribeDomainRecords;
pub use describe_domain_records::DescribeDomainRecordsResponse;
pub use describe_domains::DescribeDomains;
pub use set_domain_record_status::SetDomainRecordStatus;
pub use set_domain_record_status::SetDomainRecordStatusResponse;
