use crate::params::{entries_of, entries_sorted, insert_param, params_new, spec_insert_pair};
use crate::sign::{spec_initial_headers, Api, RequestHeader, RequestHeaderView};
use crate::text::{map_upper, spec_i64_chars, i64_to_string, to_ascii_upper};
use ordermap::OrderMap;
use vstd::prelude::*;

verus! {
/// Create one DNS record for a domain.
pub struct AddDomainRecord(OrderMap<String, String>);

impl AddDomainRecord {
    #[verifier::type_invariant]
    closed spec fn wf(self) -> bool {
        entries_sorted(entries_of(self.0))
    }

    /// Set the `Lang` parameter.
    pub fn set_lang(self, lang: &str) -> (r: Self)
        ensures
            r.spec_params() == spec_insert_pair(self.spec_params(), "Lang"@, lang@),
    {
        proof {
            use_type_invariant(&self);
        }
        let AddDomainRecord(mut p) = self;
        insert_param(&mut p, "Lang", String::from_str(lang));
        AddDomainRecord(p)
    }

    /// Set the `UserClientIp` parameter.
    pub fn set_user_client_ip(self, user_client_ip: &str) -> (r: Self)
        ensures
            r.spec_params() == spec_insert_pair(self.spec_params(), "UserClientIp"@, user_client_ip@),
    {
        proof {
            use_type_invariant(&self);
        }
        let AddDomainRecord(mut p) = self;
        insert_param(&mut p, "UserClientIp", String::from_str(user_client_ip));
        AddDomainRecord(p)
    }

    /// Set the `DomainName` parameter.
    pub fn set_domain_name(self, domain_name: &str) -> (r: Self)
        ensures
            r.spec_params() == spec_insert_pair(self.spec_params(), "DomainName"@, domain_name@),
    {
        proof {
            use_type_invariant(&self);
        }
        let AddDomainRecord(mut p) = self;
        insert_param(&mut p, "DomainName", String::from_str(domain_name));
        AddDomainRecord(p)
    }

    /// Set the `RR` parameter.
    pub fn set_rr(self, rr: &str) -> (r: Self)
        ensures
            r.spec_params() == spec_insert_pair(self.spec_params(), "RR"@, rr@),
    {
        proof {
            use_type_invariant(&self);
        }
        let AddDomainRecord(mut p) = self;
        insert_param(&mut p, "RR", String::from_str(rr));
        AddDomainRecord(p)
    }

    /// Set the `Type` parameter.
    pub fn set_type(self, type_: &str) -> (r: Self)
        ensures
            r.spec_params() == spec_insert_pair(self.spec_params(), "Type"@, map_upper(type_@)),
    {
        proof {
            use_type_invariant(&self);
        }
        let AddDomainRecord(mut p) = self;
        insert_param(&mut p, "Type", to_ascii_upper(type_));
        AddDomainRecord(p)
    }

    /// Set the `Value` parameter.
    pub fn set_value(self, value: &str) -> (r: Self)
        ensures
            r.spec_params() == spec_insert_pair(self.spec_params(), "Value"@, value@),
    {
        proof {
            use_type_invariant(&self);
        }
        let AddDomainRecord(mut p) = self;
        insert_param(&mut p, "Value", String::from_str(value));
        AddDomainRecord(p)
    }

    /// Set the `TTL` parameter.
    pub fn set_ttl(self, ttl: &str) -> (r: Self)
        ensures
            r.spec_params() == spec_insert_pair(self.spec_params(), "TTL"@, ttl@),
    {
        proof {
            use_type_invariant(&self);
        }
        let AddDomainRecord(mut p) = self;
        insert_param(&mut p, "TTL", String::from_str(ttl));
        AddDomainRecord(p)
    }

    /// Set the `Priority` parameter.
    pub fn set_priority(self, priority: &str) -> (r: Self)
        ensures
            r.spec_params() == spec_insert_pair(self.spec_params(), "Priority"@, priority@),
    {
        proof {
            use_type_invariant(&self);
        }
        let AddDomainRecord(mut p) = self;
        insert_param(&mut p, "Priority", String::from_str(priority));
        AddDomainRecord(p)
    }

    /// Set the `Line` parameter.
    pub fn set_line(self, line: &str) -> (r: Self)
        ensures
            r.spec_params() == spec_insert_pair(self.spec_params(), "Line"@, line@),
    {
        proof {
            use_type_invariant(&self);
        }
        let AddDomainRecord(mut p) = self;
        insert_param(&mut p, "Line", String::from_str(line));
        AddDomainRecord(p)
    }
}

impl Api for AddDomainRecord {
    open spec fn spec_name(&self) -> Seq<char> {
        "AddDomainRecord"@
    }

    open spec fn spec_host() -> Seq<char> {
        "alidns.cn-hangzhou.aliyuncs.com"@
    }

    open spec fn spec_version() -> Seq<char> {
        "2015-01-09"@
    }

    open spec fn spec_default_params() -> Seq<(Seq<char>, Seq<char>)> {
        spec_insert_pair(Seq::empty(), "PageSize"@, "100"@)
    }

    closed spec fn spec_params(&self) -> Seq<(Seq<char>, Seq<char>)> {
        entries_of(self.0)
    }

    open spec fn spec_descriptor(&self, date: Seq<char>, nonce: Seq<char>) -> RequestHeaderView {
        RequestHeaderView {
            method: "GET"@,
            uri: "/"@,
            host: Self::spec_host(),
            headers: spec_initial_headers(
                Self::spec_host(),
                self.spec_name(),
                Self::spec_version(),
                date,
                nonce,
            ),
            query: self.spec_params(),
            body: Seq::<char>::empty(),
        }
    }

    fn new() -> (r: Self) {
        let mut p = params_new();
        insert_param(&mut p, "PageSize", String::from_str("100"));
        AddDomainRecord(p)
    }

    fn name(&self) -> (r: String) {
        String::from_str("AddDomainRecord")
    }

    fn canonical_request(self) -> (r: RequestHeader) {
        proof {
            use_type_invariant(&self);
        }
        let ghost me = self;
        let action = self.name();
        let AddDomainRecord(p) = self;
        let r = RequestHeader::new(
            String::from_str("alidns.cn-hangzhou.aliyuncs.com"),
            action,
            String::from_str("2015-01-09"),
            p,
        );
        proof {
            let (d, n2): (Seq<char>, Seq<char>) = choose|d: Seq<char>, n2: Seq<char>|
                r@.headers == #[trigger] spec_initial_headers(
                    "alidns.cn-hangzhou.aliyuncs.com"@,
                    "AddDomainRecord"@,
                    "2015-01-09"@,
                    d,
                    n2,
                );
            assert(r@ =~= me.spec_descriptor(d, n2));
        }
        r
    }
}

/// The fields of a successful record creation.
#[derive(Default, Debug, Clone, PartialEq)]
pub struct AddDomainRecordResponse {
    pub status: String,
    pub request_id: String,
    pub record_id: String,
}

} // verus!
