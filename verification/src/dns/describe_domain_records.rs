use crate::params::{entries_of, entries_sorted, insert_param, params_new, spec_insert_pair};
use crate::sign::{spec_initial_headers, Api, RequestHeader, RequestHeaderView};
use ordermap::OrderMap;
use vstd::prelude::*;
use crate::text::{i64_to_string, spec_i64_chars};

verus! {

/// List the resource records of one domain.
#[derive(Debug)]
pub struct DescribeDomainRecords(OrderMap<String, String>);

impl DescribeDomainRecords {
    #[verifier::type_invariant]
    closed spec fn wf(self) -> bool {
        entries_sorted(entries_of(self.0))
    }

    /// Set the `Lang` parameter.
    pub fn set_lang(self, lang: &str) -> (r: Self)
        ensures
            r.spec_params() == spec_insert_pair(self.spec_params(), "Lang"@, lang@),
    {
        proof {
            use_type_invariant(&self);
        }
        let DescribeDomainRecords(mut p) = self;
        insert_param(&mut p, "Lang", String::from_str(lang));
        DescribeDomainRecords(p)
    }

    /// Set the `DomainName` parameter.
    pub fn set_domain_name(self, domain_name: &str) -> (r: Self)
        ensures
            r.spec_params() == spec_insert_pair(self.spec_params(), "DomainName"@, domain_name@),
    {
        proof {
            use_type_invariant(&self);
        }
        let DescribeDomainRecords(mut p) = self;
        insert_param(&mut p, "DomainName", String::from_str(domain_name));
        DescribeDomainRecords(p)
    }

    /// Set the `KeyWord` parameter.
    pub fn set_key_word(self, key_word: &str) -> (r: Self)
        ensures
            r.spec_params() == spec_insert_pair(self.spec_params(), "KeyWord"@, key_word@),
    {
        proof {
            use_type_invariant(&self);
        }
        let DescribeDomainRecords(mut p) = self;
        insert_param(&mut p, "KeyWord", String::from_str(key_word));
        DescribeDomainRecords(p)
    }

    /// Set the `RRKeyWord` parameter.
    pub fn set_rr_key_word(self, rr_key_word: &str) -> (r: Self)
        ensures
            r.spec_params() == spec_insert_pair(self.spec_params(), "RRKeyWord"@, rr_key_word@),
    {
        proof {
            use_type_invariant(&self);
        }
        let DescribeDomainRecords(mut p) = self;
        insert_param(&mut p, "RRKeyWord", String::from_str(rr_key_word));
        DescribeDomainRecords(p)
    }

    /// Set the `TypeKeyWord` parameter.
    pub fn set_type_key_word(self, type_key_word: &str) -> (r: Self)
        ensures
            r.spec_params() == spec_insert_pair(self.spec_params(), "TypeKeyWord"@, type_key_word@),
    {
        proof {
            use_type_invariant(&self);
        }
        let DescribeDomainRecords(mut p) = self;
        insert_param(&mut p, "TypeKeyWord", String::from_str(type_key_word));
        DescribeDomainRecords(p)
    }

    /// Set the `ValueKeyWord` parameter.
    pub fn set_value_key_word(self, value_key_word: &str) -> (r: Self)
        ensures
            r.spec_params() == spec_insert_pair(self.spec_params(), "ValueKeyWord"@, value_key_word@),
    {
        proof {
            use_type_invariant(&self);
        }
        let DescribeDomainRecords(mut p) = self;
        insert_param(&mut p, "ValueKeyWord", String::from_str(value_key_word));
        DescribeDomainRecords(p)
    }

    /// Set the `OrderBy` parameter.
    pub fn set_order_by(self, order_by: &str) -> (r: Self)
        ensures
            r.spec_params() == spec_insert_pair(self.spec_params(), "OrderBy"@, order_by@),
    {
        proof {
            use_type_invariant(&self);
        }
        let DescribeDomainRecords(mut p) = self;
        insert_param(&mut p, "OrderBy", String::from_str(order_by));
        DescribeDomainRecords(p)
    }

    /// Set the `Direction` parameter.
    pub fn set_direction(self, direction: &str) -> (r: Self)
        ensures
            r.spec_params() == spec_insert_pair(self.spec_params(), "Direction"@, direction@),
    {
        proof {
            use_type_invariant(&self);
        }
        let DescribeDomainRecords(mut p) = self;
        insert_param(&mut p, "Direction", String::from_str(direction));
        DescribeDomainRecords(p)
    }

    /// Set the `SearchMode` parameter.
    pub fn set_search_mode(self, search_mode: &str) -> (r: Self)
        ensures
            r.spec_params() == spec_insert_pair(self.spec_params(), "SearchMode"@, search_mode@),
    {
        proof {
            use_type_invariant(&self);
        }
        let DescribeDomainRecords(mut p) = self;
        insert_param(&mut p, "SearchMode", String::from_str(search_mode));
        DescribeDomainRecords(p)
    }

    /// Set the `GroupId` parameter.
    pub fn set_group_id(self, group_id: &str) -> (r: Self)
        ensures
            r.spec_params() == spec_insert_pair(self.spec_params(), "GroupId"@, group_id@),
    {
        proof {
            use_type_invariant(&self);
        }
        let DescribeDomainRecords(mut p) = self;
        insert_param(&mut p, "GroupId", String::from_str(group_id));
        DescribeDomainRecords(p)
    }

    /// Set the `Type` parameter.
    pub fn set_record_type(self, type_: &str) -> (r: Self)
        ensures
            r.spec_params() == spec_insert_pair(self.spec_params(), "Type"@, type_@),
    {
        proof {
            use_type_invariant(&self);
        }
        let DescribeDomainRecords(mut p) = self;
        insert_param(&mut p, "Type", String::from_str(type_));
        DescribeDomainRecords(p)
    }

    /// Set the `Line` parameter.
    pub fn set_line(self, line: &str) -> (r: Self)
        ensures
            r.spec_params() == spec_insert_pair(self.spec_params(), "Line"@, line@),
    {
        proof {
            use_type_invariant(&self);
        }
        let DescribeDomainRecords(mut p) = self;
        insert_param(&mut p, "Line", String::from_str(line));
        DescribeDomainRecords(p)
    }

    /// Set the `Status` parameter.
    pub fn set_status(self, status: &str) -> (r: Self)
        ensures
            r.spec_params() == spec_insert_pair(self.spec_params(), "Status"@, status@),
    {
        proof {
            use_type_invariant(&self);
        }
        let DescribeDomainRecords(mut p) = self;
        insert_param(&mut p, "Status", String::from_str(status));
        DescribeDomainRecords(p)
    }

    /// Set the `PageNumber` parameter.
    pub fn set_page_number(self, page_number: i64) -> (r: Self)
        ensures
            r.spec_params() == spec_insert_pair(self.spec_params(), "PageNumber"@, spec_i64_chars(page_number as int)),
    {
        proof {
            use_type_invariant(&self);
        }
        let DescribeDomainRecords(mut p) = self;
        insert_param(&mut p, "PageNumber", i64_to_string(page_number));
        DescribeDomainRecords(p)
    }

    /// Set the `PageSize` parameter.
    pub fn set_page_size(self, page_size: i64) -> (r: Self)
        ensures
            r.spec_params() == spec_insert_pair(self.spec_params(), "PageSize"@, spec_i64_chars(page_size as int)),
    {
        proof {
            use_type_invariant(&self);
        }
        let DescribeDomainRecords(mut p) = self;
        insert_param(&mut p, "PageSize", i64_to_string(page_size));
        DescribeDomainRecords(p)
    }
}

impl Api for DescribeDomainRecords {
    open spec fn spec_name(&self) -> Seq<char> {
        "DescribeDomainRecords"@
    }

    open spec fn spec_host() -> Seq<char> {
        "alidns.cn-hangzhou.aliyuncs.com"@
    }

    open spec fn spec_version() -> Seq<char> {
        "2015-01-09"@
    }

    open spec fn spec_default_params() -> Seq<(Seq<char>, Seq<char>)> {
        spec_insert_pair(Seq::empty(), "PageSize"@, "500"@)
    }

    closed spec fn spec_params(&self) -> Seq<(Seq<char>, Seq<char>)> {
        entries_of(self.0)
    }

    open spec fn spec_descriptor(&self, date: Seq<char>, nonce: Seq<char>) -> RequestHeaderView {
        RequestHeaderView {
            method: "GET"@,
            uri: "/"@,
            host: Self::spec_host(),
            headers: spec_initial_headers(
                Self::spec_host(),
                self.spec_name(),
                Self::spec_version(),
                date,
                nonce,
            ),
            query: self.spec_params(),
            body: Seq::<char>::empty(),
        }
    }

    fn new() -> (r: Self) {
        let mut p = params_new();
        insert_param(&mut p, "PageSize", String::from_str("500"));
        DescribeDomainRecords(p)
    }

    fn name(&self) -> (r: String) {
        String::from_str("DescribeDomainRecords")
    }

    fn canonical_request(self) -> (r: RequestHeader) {
        proof {
            use_type_invariant(&self);
        }
        let ghost me = self;
        let action = self.name();
        let DescribeDomainRecords(p) = self;
        let r = RequestHeader::new(
            String::from_str("alidns.cn-hangzhou.aliyuncs.com"),
            action,
            String::from_str("2015-01-09"),
            p,
        );
        proof {
            let (d, n2): (Seq<char>, Seq<char>) = choose|d: Seq<char>, n2: Seq<char>|
                r@.headers == #[trigger] spec_initial_headers(
                    "alidns.cn-hangzhou.aliyuncs.com"@,
                    "DescribeDomainRecords"@,
                    "2015-01-09"@,
                    d,
                    n2,
                );
            assert(r@ =~= me.spec_descriptor(d, n2));
        }
        r
    }
}

/// One page of a record listing.
#[derive(Default, Debug, Clone, PartialEq)]
pub struct DescribeDomainRecordsResponse {
    pub total_count: i64,
    pub page_size: i64,
    pub request_id: String,
    pub domain_records: DomainRecords,
    pub page_number: i64,
}

/// The records of one page.
#[derive(Default, Debug, Clone, PartialEq)]
pub struct DomainRecords {
    pub record: Vec<Record>,
}

/// One resource record.
#[derive(Default, Debug, Clone, PartialEq)]
pub struct Record {
    pub status: String,
    pub rr: String,
    pub line: String,
    pub locked: bool,
    pub type_field: String,
    pub domain_name: String,
    pub value: String,
    pub record_id: String,
    pub ttl: i64,
    pub create_timestamp: i64,
    pub weight: i64,
    pub update_timestamp: Option<i64>,
}

} // verus!
