use crate::params::{entries_of, entries_sorted, insert_param, params_new, spec_insert_pair};
use crate::sign::{spec_initial_headers, Api, RequestHeader, RequestHeaderView};
use ordermap::OrderMap;
use vstd::prelude::*;

verus! {

/// Enable or disable one resource record.
pub struct SetDomainRecordStatus(OrderMap<String, String>);

impl SetDomainRecordStatus {
    #[verifier::type_invariant]
    closed spec fn wf(self) -> bool {
        entries_sorted(entries_of(self.0))
    }

    /// Set the `Lang` parameter.
    pub fn set_lang(self, lang: &str) -> (r: Self)
        ensures
            r.spec_params() == spec_insert_pair(self.spec_params(), "Lang"@, lang@),
    {
        proof {
            use_type_invariant(&self);
        }
        let SetDomainRecordStatus(mut p) = self;
        insert_param(&mut p, "Lang", String::from_str(lang));
        SetDomainRecordStatus(p)
    }

    /// Set the `UserClientIp` parameter.
    pub fn set_user_client_ip(self, user_client_ip: &str) -> (r: Self)
        ensures
            r.spec_params() == spec_insert_pair(self.spec_params(), "UserClientIp"@, user_client_ip@),
    {
        proof {
            use_type_invariant(&self);
        }
        let SetDomainRecordStatus(mut p) = self;
        insert_param(&mut p, "UserClientIp", String::from_str(user_client_ip));
        SetDomainRecordStatus(p)
    }

    /// Set the `RecordId` parameter.
    pub fn set_record_id(self, record_id: &str) -> (r: Self)
        ensures
            r.spec_params() == spec_insert_pair(self.spec_params(), "RecordId"@, record_id@),
    {
        proof {
            use_type_invariant(&self);
        }
        let SetDomainRecordStatus(mut p) = self;
        insert_param(&mut p, "RecordId", String::from_str(record_id));
        SetDomainRecordStatus(p)
    }

    /// Set the `Status` parameter.
    pub fn set_status(self, status: &str) -> (r: Self)
        ensures
            r.spec_params() == spec_insert_pair(self.spec_params(), "Status"@, status@),
    {
        proof {
            use_type_invariant(&self);
        }
        let SetDomainRecordStatus(mut p) = self;
        insert_param(&mut p, "Status", String::from_str(status));
        SetDomainRecordStatus(p)
    }
}

impl Api for SetDomainRecordStatus {
    open spec fn spec_name(&self) -> Seq<char> {
        "SetDomainRecordStatus"@
    }

    open spec fn spec_host() -> Seq<char> {
        "alidns.cn-hangzhou.aliyuncs.com"@
    }

    open spec fn spec_version() -> Seq<char> {
        "2015-01-09"@
    }

    open spec fn spec_default_params() -> Seq<(Seq<char>, Seq<char>)> {
        spec_insert_pair(Seq::empty(), "PageSize"@, "100"@)
    }

    closed spec fn spec_params(&self) -> Seq<(Seq<char>, Seq<char>)> {
        entries_of(self.0)
    }

    open spec fn spec_descriptor(&self, date: Seq<char>, nonce: Seq<char>) -> RequestHeaderView {
        RequestHeaderView {
            method: "GET"@,
            uri: "/"@,
            host: Self::spec_host(),
            headers: spec_initial_headers(
                Self::spec_host(),
                self.spec_name(),
                Self::spec_version(),
                date,
                nonce,
            ),
            query: self.spec_params(),
            body: Seq::<char>::empty(),
        }
    }

    fn new() -> (r: Self) {
        let mut p = params_new();
        insert_param(&mut p, "PageSize", String::from_str("100"));
        SetDomainRecordStatus(p)
    }

    fn name(&self) -> (r: String) {
        String::from_str("SetDomainRecordStatus")
    }

    fn canonical_request(self) -> (r: RequestHeader) {
        proof {
            use_type_invariant(&self);
        }
        let ghost me = self;
        let action = self.name();
        let SetDomainRecordStatus(p) = self;
        let r = RequestHeader::new(
            String::from_str("alidns.cn-hangzhou.aliyuncs.com"),
            action,
            String::from_str("2015-01-09"),
            p,
        );
        proof {
            let (d, n2): (Seq<char>, Seq<char>) = choose|d: Seq<char>, n2: Seq<char>|
                r@.headers == #[trigger] spec_initial_headers(
                    "alidns.cn-hangzhou.aliyuncs.com"@,
                    "SetDomainRecordStatus"@,
                    "2015-01-09"@,
                    d,
                    n2,
                );
            assert(r@ =~= me.spec_descriptor(d, n2));
        }
        r
    }
}

/// The outcome of a status change.
#[derive(Default, Debug, Clone, PartialEq)]
pub struct SetDomainRecordStatusResponse {
    pub status: String,
    pub request_id: String,
    pub record_id: String,
}

} // verus!
