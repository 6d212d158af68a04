use crate::params::{entries_of, entries_sorted, insert_param, params_new, spec_insert_pair};
use crate::sign::{spec_initial_headers, Api, RequestHeader, RequestHeaderView};
use ordermap::OrderMap;
use vstd::prelude::*;

verus! {

/// List the account's resource package instances.
pub struct QueryResourcePackageInstances(OrderMap<String, String>);

impl QueryResourcePackageInstances {
    #[verifier::type_invariant]
    closed spec fn wf(self) -> bool {
        entries_sorted(entries_of(self.0))
    }

    /// Set the `ProductCode` parameter.
    pub fn set_product_code(self, product_code: &str) -> (r: Self)
        ensures
            r.spec_params() == spec_insert_pair(self.spec_params(), "ProductCode"@, product_code@),
    {
        proof {
            use_type_invariant(&self);
        }
        let QueryResourcePackageInstances(mut p) = self;
        insert_param(&mut p, "ProductCode", String::from_str(product_code));
        QueryResourcePackageInstances(p)
    }

    /// Set the `ExpiryTimeStart` parameter.
    pub fn set_expiry_time_start(self, expiry_time_start: &str) -> (r: Self)
        ensures
            r.spec_params() == spec_insert_pair(self.spec_params(), "ExpiryTimeStart"@, expiry_time_start@),
    {
        proof {
            use_type_invariant(&self);
        }
        let QueryResourcePackageInstances(mut p) = self;
        insert_param(&mut p, "ExpiryTimeStart", String::from_str(expiry_time_start));
        QueryResourcePackageInstances(p)
    }

    /// Set the `ExpiryTimeEnd` parameter.
    pub fn set_expiry_time_end(self, expiry_time_end: &str) -> (r: Self)
        ensures
            r.spec_params() == spec_insert_pair(self.spec_params(), "ExpiryTimeEnd"@, expiry_time_end@),
    {
        proof {
            use_type_invariant(&self);
        }
        let QueryResourcePackageInstances(mut p) = self;
        insert_param(&mut p, "ExpiryTimeEnd", String::from_str(expiry_time_end));
        QueryResourcePackageInstances(p)
    }

    /// Set the `IncludePartner` parameter.
    pub fn set_include_partner(self, include_partner: &str) -> (r: Self)
        ensures
            r.spec_params() == spec_insert_pair(self.spec_params(), "IncludePartner"@, include_partner@),
    {
        proof {
            use_type_invariant(&self);
        }
        let QueryResourcePackageInstances(mut p) = self;
        insert_param(&mut p, "IncludePartner", String::from_str(include_partner));
        QueryResourcePackageInstances(p)
    }

    /// Set the `PageNum` parameter.
    pub fn set_page_num(self, page_num: &str) -> (r: Self)
        ensures
            r.spec_params() == spec_insert_pair(self.spec_params(), "PageNum"@, page_num@),
    {
        proof {
            use_type_invariant(&self);
        }
        let QueryResourcePackageInstances(mut p) = self;
        insert_param(&mut p, "PageNum", String::from_str(page_num));
        QueryResourcePackageInstances(p)
    }

    /// Set the `PageSize` parameter.
    pub fn set_page_size(self, page_size: &str) -> (r: Self)
        ensures
            r.spec_params() == spec_insert_pair(self.spec_params(), "PageSize"@, page_size@),
    {
        proof {
            use_type_invariant(&self);
        }
        let QueryResourcePackageInstances(mut p) = self;
        insert_param(&mut p, "PageSize", String::from_str(page_size));
        QueryResourcePackageInstances(p)
    }
}

impl Api for QueryResourcePackageInstances {
    open spec fn spec_name(&self) -> Seq<char> {
        "QueryResourcePackageInstances"@
    }

    open spec fn spec_host() -> Seq<char> {
        "business.aliyuncs.com"@
    }

    open spec fn spec_version() -> Seq<char> {
        "2017-12-14"@
    }

    open spec fn spec_default_params() -> Seq<(Seq<char>, Seq<char>)> {
        spec_insert_pair(Seq::empty(), "PageSize"@, "300"@)
    }

    closed spec fn spec_params(&self) -> Seq<(Seq<char>, Seq<char>)> {
        entries_of(self.0)
    }

    open spec fn spec_descriptor(&self, date: Seq<char>, nonce: Seq<char>) -> RequestHeaderView {
        RequestHeaderView {
            method: "GET"@,
            uri: "/"@,
            host: Self::spec_host(),
            headers: spec_initial_headers(
                Self::spec_host(),
                self.spec_name(),
                Self::spec_version(),
                date,
                nonce,
            ),
            query: self.spec_params(),
            body: Seq::<char>::empty(),
        }
    }

    fn new() -> (r: Self) {
        let mut p = params_new();
        insert_param(&mut p, "PageSize", String::from_str("300"));
        QueryResourcePackageInstances(p)
    }

    fn name(&self) -> (r: String) {
        String::from_str("QueryResourcePackageInstances")
    }

    fn canonical_request(self) -> (r: RequestHeader) {
        proof {
            use_type_invariant(&self);
        }
        let ghost me = self;
        let action = self.name();
        let QueryResourcePackageInstances(p) = self;
        let r = RequestHeader::new(
            String::from_str("business.aliyuncs.com"),
            action,
            String::from_str("2017-12-14"),
            p,
        );
        proof {
            let (d, n2): (Seq<char>, Seq<char>) = choose|d: Seq<char>, n2: Seq<char>|
                r@.headers == #[trigger] spec_initial_headers(
                    "business.aliyuncs.com"@,
                    "QueryResourcePackageInstances"@,
                    "2017-12-14"@,
                    d,
                    n2,
                );
            assert(r@ =~= me.spec_descriptor(d, n2));
        }
        r
    }
}

/// The instances of one page.
#[derive(Default, Debug, Clone, PartialEq)]
pub struct Instances {
    pub instance: Vec<Instance>,
}

/// One resource package instance.
#[derive(Default, Debug, Clone, PartialEq)]
pub struct Instance {
    pub status: String,
    pub instance_id: String,
    pub effective_time: String,
    pub expiry_time: String,
    pub total_amount: String,
    pub remark: String,
    pub remaining_amount_unit: String,
    pub package_type: String,
    pub deduct_type: String,
    pub total_amount_unit: String,
    pub commodity_code: String,
    pub region: String,
    pub applicable_products: ApplicableProducts,
    pub remaining_amount: String,
}

/// The products a package applies to.
#[derive(Default, Debug, Clone, PartialEq)]
pub struct ApplicableProducts {
    pub product: Vec<String>,
}

} // verus!
