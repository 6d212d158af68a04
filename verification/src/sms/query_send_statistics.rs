use crate::params::{entries_of, entries_sorted, insert_param, params_new, spec_insert_pair};
use crate::sign::{spec_initial_headers, Api, RequestHeader, RequestHeaderView};
use ordermap::OrderMap;
use vstd::prelude::*;
use crate::text::map_upper;

verus! {

/// Delivery statistics for sent text messages.
#[derive(Debug)]
pub struct QuerySendStatistics(OrderMap<String, String>);

impl QuerySendStatistics {
    #[verifier::type_invariant]
    closed spec fn wf(self) -> bool {
        entries_sorted(entries_of(self.0))
    }

    /// Set the `IsGlobe` parameter.
    pub fn set_is_globe(self, is_globe: &str) -> (r: Self)
        ensures
            r.spec_params() == spec_insert_pair(self.spec_params(), "IsGlobe"@, is_globe@),
    {
        proof {
            use_type_invariant(&self);
        }
        let QuerySendStatistics(mut p) = self;
        insert_param(&mut p, "IsGlobe", String::from_str(is_globe));
        QuerySendStatistics(p)
    }

    /// Set the `StartDate` parameter.
    pub fn set_start_date(self, start_date: &str) -> (r: Self)
        ensures
            r.spec_params() == spec_insert_pair(self.spec_params(), "StartDate"@, start_date@),
    {
        proof {
            use_type_invariant(&self);
        }
        let QuerySendStatistics(mut p) = self;
        insert_param(&mut p, "StartDate", String::from_str(start_date));
        QuerySendStatistics(p)
    }

    /// Set the `EndDate` parameter.
    pub fn set_end_date(self, end_date: &str) -> (r: Self)
        ensures
            r.spec_params() == spec_insert_pair(self.spec_params(), "EndDate"@, end_date@),
    {
        proof {
            use_type_invariant(&self);
        }
        let QuerySendStatistics(mut p) = self;
        insert_param(&mut p, "EndDate", String::from_str(end_date));
        QuerySendStatistics(p)
    }

    /// Set the `TemplateType` parameter.
    pub fn set_template_type(self, template_type: &str) -> (r: Self)
        ensures
            r.spec_params() == spec_insert_pair(self.spec_params(), "TemplateType"@, template_type@),
    {
        proof {
            use_type_invariant(&self);
        }
        let QuerySendStatistics(mut p) = self;
        insert_param(&mut p, "TemplateType", String::from_str(template_type));
        QuerySendStatistics(p)
    }

    /// Set the `SignName` parameter.
    pub fn set_sign_name(self, sign_name: &str) -> (r: Self)
        ensures
            r.spec_params() == spec_insert_pair(self.spec_params(), "SignName"@, sign_name@),
    {
        proof {
            use_type_invariant(&self);
        }
        let QuerySendStatistics(mut p) = self;
        insert_param(&mut p, "SignName", String::from_str(sign_name));
        QuerySendStatistics(p)
    }

    /// Set the `PageIndex` parameter.
    pub fn set_page_index(self, page_index: &str) -> (r: Self)
        ensures
            r.spec_params() == spec_insert_pair(self.spec_params(), "PageIndex"@, page_index@),
    {
        proof {
            use_type_invariant(&self);
        }
        let QuerySendStatistics(mut p) = self;
        insert_param(&mut p, "PageIndex", String::from_str(page_index));
        QuerySendStatistics(p)
    }

    /// Set the `PageSize` parameter.
    pub fn set_page_size(self, page_size: &str) -> (r: Self)
        ensures
            r.spec_params() == spec_insert_pair(self.spec_params(), "PageSize"@, page_size@),
    {
        proof {
            use_type_invariant(&self);
        }
        let QuerySendStatistics(mut p) = self;
        insert_param(&mut p, "PageSize", String::from_str(page_size));
        QuerySendStatistics(p)
    }
}

impl Api for QuerySendStatistics {
    open spec fn spec_name(&self) -> Seq<char> {
        "QuerySendStatistics"@
    }

    open spec fn spec_host() -> Seq<char> {
        "dysmsapi.aliyuncs.com"@
    }

    open spec fn spec_version() -> Seq<char> {
        "2017-05-25"@
    }

    open spec fn spec_default_params() -> Seq<(Seq<char>, Seq<char>)> {
        spec_insert_pair(spec_insert_pair(Seq::empty(), "PageIndex"@, "1"@), "PageSize"@, "50"@)
    }

    closed spec fn spec_params(&self) -> Seq<(Seq<char>, Seq<char>)> {
        entries_of(self.0)
    }

    open spec fn spec_descriptor(&self, date: Seq<char>, nonce: Seq<char>) -> RequestHeaderView {
        RequestHeaderView {
            method: "POST"@,
            uri: "/"@,
            host: Self::spec_host(),
            headers: spec_initial_headers(
                Self::spec_host(),
                self.spec_name(),
                Self::spec_version(),
                date,
                nonce,
            ),
            query: self.spec_params(),
            body: Seq::<char>::empty(),
        }
    }

    fn new() -> (r: Self) {
        let mut p = params_new();
        insert_param(&mut p, "PageIndex", String::from_str("1"));
        insert_param(&mut p, "PageSize", String::from_str("50"));
        QuerySendStatistics(p)
    }

    fn name(&self) -> (r: String) {
        String::from_str("QuerySendStatistics")
    }

    fn canonical_request(self) -> (r: RequestHeader) {
        proof {
            use_type_invariant(&self);
        }
        let ghost me = self;
        let action = self.name();
        let QuerySendStatistics(p) = self;
        let r0 = RequestHeader::new(
            String::from_str("dysmsapi.aliyuncs.com"),
            action,
            String::from_str("2017-05-25"),
            p,
        );
        let r = r0.set_method("POST");
        proof {
            let (d, n2): (Seq<char>, Seq<char>) = choose|d: Seq<char>, n2: Seq<char>|
                r0@.headers == #[trigger] spec_initial_headers(
                    "dysmsapi.aliyuncs.com"@,
                    "QuerySendStatistics"@,
                    "2017-05-25"@,
                    d,
                    n2,
                );
            reveal_strlit("POST");
            assert(map_upper("POST"@) =~= "POST"@);
            assert(r@ =~= me.spec_descriptor(d, n2));
        }
        r
    }
}

/// The statistics of one day.
#[derive(Default, Debug, Clone, PartialEq)]
pub struct TargetList {
    pub total_count: i64,
    pub no_responded_count: i64,
    pub send_date: String,
    pub responded_fail_count: i64,
    pub responded_success_count: i64,
}

} // verus!
