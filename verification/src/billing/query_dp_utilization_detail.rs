use crate::params::{entries_of, entries_sorted, insert_param, params_new, spec_insert_pair};
use crate::sign::{spec_initial_headers, Api, RequestHeader, RequestHeaderView};
use ordermap::OrderMap;
use vstd::prelude::*;

verus! {

/// Usage details of deducted resource plans.
pub struct QueryDPUtilizationDetail(OrderMap<String, String>);

impl QueryDPUtilizationDetail {
    #[verifier::type_invariant]
    closed spec fn wf(self) -> bool {
        entries_sorted(entries_of(self.0))
    }

    /// Set the `InstanceId` parameter.
    pub fn set_instance_id(self, instance_id: &str) -> (r: Self)
        ensures
            r.spec_params() == spec_insert_pair(self.spec_params(), "InstanceId"@, instance_id@),
    {
        proof {
            use_type_invariant(&self);
        }
        let QueryDPUtilizationDetail(mut p) = self;
        insert_param(&mut p, "InstanceId", String::from_str(instance_id));
        QueryDPUtilizationDetail(p)
    }

    /// Set the `InstanceSpec` parameter.
    pub fn set_instance_spec(self, instance_spec: &str) -> (r: Self)
        ensures
            r.spec_params() == spec_insert_pair(self.spec_params(), "InstanceSpec"@, instance_spec@),
    {
        proof {
            use_type_invariant(&self);
        }
        let QueryDPUtilizationDetail(mut p) = self;
        insert_param(&mut p, "InstanceSpec", String::from_str(instance_spec));
        QueryDPUtilizationDetail(p)
    }

    /// Set the `CommodityCode` parameter.
    pub fn set_commodity_code(self, commodity_code: &str) -> (r: Self)
        ensures
            r.spec_params() == spec_insert_pair(self.spec_params(), "CommodityCode"@, commodity_code@),
    {
        proof {
            use_type_invariant(&self);
        }
        let QueryDPUtilizationDetail(mut p) = self;
        insert_param(&mut p, "CommodityCode", String::from_str(commodity_code));
        QueryDPUtilizationDetail(p)
    }

    /// Set the `DeductedInstanceId` parameter.
    pub fn set_deducted_instance_id(self, deducted_instance_id: &str) -> (r: Self)
        ensures
            r.spec_params() == spec_insert_pair(self.spec_params(), "DeductedInstanceId"@, deducted_instance_id@),
    {
        proof {
            use_type_invariant(&self);
        }
        let QueryDPUtilizationDetail(mut p) = self;
        insert_param(&mut p, "DeductedInstanceId", String::from_str(deducted_instance_id));
        QueryDPUtilizationDetail(p)
    }

    /// Set the `StartTime` parameter.
    pub fn set_start_time(self, start_time: &str) -> (r: Self)
        ensures
            r.spec_params() == spec_insert_pair(self.spec_params(), "StartTime"@, start_time@),
    {
        proof {
            use_type_invariant(&self);
        }
        let QueryDPUtilizationDetail(mut p) = self;
        insert_param(&mut p, "StartTime", String::from_str(start_time));
        QueryDPUtilizationDetail(p)
    }

    /// Set the `EndTime` parameter.
    pub fn set_end_time(self, end_time: &str) -> (r: Self)
        ensures
            r.spec_params() == spec_insert_pair(self.spec_params(), "EndTime"@, end_time@),
    {
        proof {
            use_type_invariant(&self);
        }
        let QueryDPUtilizationDetail(mut p) = self;
        insert_param(&mut p, "EndTime", String::from_str(end_time));
        QueryDPUtilizationDetail(p)
    }

    /// Set the `LastToken` parameter.
    pub fn set_last_token(self, last_token: &str) -> (r: Self)
        ensures
            r.spec_params() == spec_insert_pair(self.spec_params(), "LastToken"@, last_token@),
    {
        proof {
            use_type_invariant(&self);
        }
        let QueryDPUtilizationDetail(mut p) = self;
        insert_param(&mut p, "LastToken", String::from_str(last_token));
        QueryDPUtilizationDetail(p)
    }

    /// Set the `Limit` parameter.
    pub fn set_limit(self, limit: &str) -> (r: Self)
        ensures
            r.spec_params() == spec_insert_pair(self.spec_params(), "Limit"@, limit@),
    {
        proof {
            use_type_invariant(&self);
        }
        let QueryDPUtilizationDetail(mut p) = self;
        insert_param(&mut p, "Limit", String::from_str(limit));
        QueryDPUtilizationDetail(p)
    }

    /// Set the `IncludeShare` parameter.
    pub fn set_include_share(self, include_share: &str) -> (r: Self)
        ensures
            r.spec_params() == spec_insert_pair(self.spec_params(), "IncludeShare"@, include_share@),
    {
        proof {
            use_type_invariant(&self);
        }
        let QueryDPUtilizationDetail(mut p) = self;
        insert_param(&mut p, "IncludeShare", String::from_str(include_share));
        QueryDPUtilizationDetail(p)
    }

    /// Set the `ProdCode` parameter.
    pub fn set_prod_code(self, prod_code: &str) -> (r: Self)
        ensures
            r.spec_params() == spec_insert_pair(self.spec_params(), "ProdCode"@, prod_code@),
    {
        proof {
            use_type_invariant(&self);
        }
        let QueryDPUtilizationDetail(mut p) = self;
        insert_param(&mut p, "ProdCode", String::from_str(prod_code));
        QueryDPUtilizationDetail(p)
    }
}

impl Api for QueryDPUtilizationDetail {
    open spec fn spec_name(&self) -> Seq<char> {
        "QueryDPUtilizationDetail"@
    }

    open spec fn spec_host() -> Seq<char> {
        "business.aliyuncs.com"@
    }

    open spec fn spec_version() -> Seq<char> {
        "2017-12-14"@
    }

    open spec fn spec_default_params() -> Seq<(Seq<char>, Seq<char>)> {
        Seq::empty()
    }

    closed spec fn spec_params(&self) -> Seq<(Seq<char>, Seq<char>)> {
        entries_of(self.0)
    }

    open spec fn spec_descriptor(&self, date: Seq<char>, nonce: Seq<char>) -> RequestHeaderView {
        RequestHeaderView {
            method: "GET"@,
            uri: "/"@,
            host: Self::spec_host(),
            headers: spec_initial_headers(
                Self::spec_host(),
                self.spec_name(),
                Self::spec_version(),
                date,
                nonce,
            ),
            query: self.spec_params(),
            body: Seq::<char>::empty(),
        }
    }

    fn new() -> (r: Self) {
        let mut p = params_new();
        QueryDPUtilizationDetail(p)
    }

    fn name(&self) -> (r: String) {
        String::from_str("QueryDPUtilizationDetail")
    }

    fn canonical_request(self) -> (r: RequestHeader) {
        proof {
            use_type_invariant(&self);
        }
        let ghost me = self;
        let action = self.name();
        let QueryDPUtilizationDetail(p) = self;
        let r = RequestHeader::new(
            String::from_str("business.aliyuncs.com"),
            action,
            String::from_str("2017-12-14"),
            p,
        );
        proof {
            let (d, n2): (Seq<char>, Seq<char>) = choose|d: Seq<char>, n2: Seq<char>|
                r@.headers == #[trigger] spec_initial_headers(
                    "business.aliyuncs.com"@,
                    "QueryDPUtilizationDetail"@,
                    "2017-12-14"@,
                    d,
                    n2,
                );
            assert(r@ =~= me.spec_descriptor(d, n2));
        }
        r
    }
}

} // verus!
