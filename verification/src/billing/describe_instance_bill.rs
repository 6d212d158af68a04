use crate::params::{entries_of, entries_sorted, insert_param, params_new, spec_insert_pair};
use crate::sign::{spec_initial_headers, Api, RequestHeader, RequestHeaderView};
use ordermap::OrderMap;
use vstd::prelude::*;

verus! {

/// Itemized consumption for one billing cycle.
#[derive(Debug)]
pub struct DescribeInstanceBill(OrderMap<String, String>);

impl DescribeInstanceBill {
    #[verifier::type_invariant]
    closed spec fn wf(self) -> bool {
        entries_sorted(entries_of(self.0))
    }

    /// Set the `BillingCycle` parameter.
    pub fn set_billing_cycle(self, billing_cycle: &str) -> (r: Self)
        ensures
            r.spec_params() == spec_insert_pair(self.spec_params(), "BillingCycle"@, billing_cycle@),
    {
        proof {
            use_type_invariant(&self);
        }
        let DescribeInstanceBill(mut p) = self;
        insert_param(&mut p, "BillingCycle", String::from_str(billing_cycle));
        DescribeInstanceBill(p)
    }

    /// Set the `ProductCode` parameter.
    pub fn set_product_code(self, product_code: &str) -> (r: Self)
        ensures
            r.spec_params() == spec_insert_pair(self.spec_params(), "ProductCode"@, product_code@),
    {
        proof {
            use_type_invariant(&self);
        }
        let DescribeInstanceBill(mut p) = self;
        insert_param(&mut p, "ProductCode", String::from_str(product_code));
        DescribeInstanceBill(p)
    }

    /// Set the `ProductType` parameter.
    pub fn set_product_type(self, product_type: &str) -> (r: Self)
        ensures
            r.spec_params() == spec_insert_pair(self.spec_params(), "ProductType"@, product_type@),
    {
        proof {
            use_type_invariant(&self);
        }
        let DescribeInstanceBill(mut p) = self;
        insert_param(&mut p, "ProductType", String::from_str(product_type));
        DescribeInstanceBill(p)
    }

    /// Set the `SubscriptionType` parameter.
    pub fn set_subscription_type(self, subscription_type: &str) -> (r: Self)
        ensures
            r.spec_params() == spec_insert_pair(self.spec_params(), "SubscriptionType"@, subscription_type@),
    {
        proof {
            use_type_invariant(&self);
        }
        let DescribeInstanceBill(mut p) = self;
        insert_param(&mut p, "SubscriptionType", String::from_str(subscription_type));
        DescribeInstanceBill(p)
    }

    /// Set the `IsBillingItem` parameter.
    pub fn set_is_billing_item(self, is_billing_item: &str) -> (r: Self)
        ensures
            r.spec_params() == spec_insert_pair(self.spec_params(), "IsBillingItem"@, is_billing_item@),
    {
        proof {
            use_type_invariant(&self);
        }
        let DescribeInstanceBill(mut p) = self;
        insert_param(&mut p, "IsBillingItem", String::from_str(is_billing_item));
        DescribeInstanceBill(p)
    }

    /// Set the `IsHideZeroCharge` parameter.
    pub fn set_is_hide_zero_charge(self, is_hide_zero_charge: &str) -> (r: Self)
        ensures
            r.spec_params() == spec_insert_pair(self.spec_params(), "IsHideZeroCharge"@, is_hide_zero_charge@),
    {
        proof {
            use_type_invariant(&self);
        }
        let DescribeInstanceBill(mut p) = self;
        insert_param(&mut p, "IsHideZeroCharge", String::from_str(is_hide_zero_charge));
        DescribeInstanceBill(p)
    }

    /// Set the `BillingDate` parameter.
    pub fn set_billing_date(self, billing_date: &str) -> (r: Self)
        ensures
            r.spec_params() == spec_insert_pair(self.spec_params(), "BillingDate"@, billing_date@),
    {
        proof {
            use_type_invariant(&self);
        }
        let DescribeInstanceBill(mut p) = self;
        insert_param(&mut p, "BillingDate", String::from_str(billing_date));
        DescribeInstanceBill(p)
    }

    /// Set the `Granularity` parameter.
    pub fn set_granularity(self, granularity: &str) -> (r: Self)
        ensures
            r.spec_params() == spec_insert_pair(self.spec_params(), "Granularity"@, granularity@),
    {
        proof {
            use_type_invariant(&self);
        }
        let DescribeInstanceBill(mut p) = self;
        insert_param(&mut p, "Granularity", String::from_str(granularity));
        DescribeInstanceBill(p)
    }

    /// Set the `BillOwnerId` parameter.
    pub fn set_bill_owner_id(self, bill_owner_id: &str) -> (r: Self)
        ensures
            r.spec_params() == spec_insert_pair(self.spec_params(), "BillOwnerId"@, bill_owner_id@),
    {
        proof {
            use_type_invariant(&self);
        }
        let DescribeInstanceBill(mut p) = self;
        insert_param(&mut p, "BillOwnerId", String::from_str(bill_owner_id));
        DescribeInstanceBill(p)
    }

    /// Set the `InstanceID` parameter.
    pub fn set_instance_id(self, instance_id: &str) -> (r: Self)
        ensures
            r.spec_params() == spec_insert_pair(self.spec_params(), "InstanceID"@, instance_id@),
    {
        proof {
            use_type_invariant(&self);
        }
        let DescribeInstanceBill(mut p) = self;
        insert_param(&mut p, "InstanceID", String::from_str(instance_id));
        DescribeInstanceBill(p)
    }

    /// Set the `PipCode` parameter.
    pub fn set_pip_code(self, pip_code: &str) -> (r: Self)
        ensures
            r.spec_params() == spec_insert_pair(self.spec_params(), "PipCode"@, pip_code@),
    {
        proof {
            use_type_invariant(&self);
        }
        let DescribeInstanceBill(mut p) = self;
        insert_param(&mut p, "PipCode", String::from_str(pip_code));
        DescribeInstanceBill(p)
    }

    /// Set the `NextToken` parameter.
    pub fn set_next_token(self, next_token: &str) -> (r: Self)
        ensures
            r.spec_params() == spec_insert_pair(self.spec_params(), "NextToken"@, next_token@),
    {
        proof {
            use_type_invariant(&self);
        }
        let DescribeInstanceBill(mut p) = self;
        insert_param(&mut p, "NextToken", String::from_str(next_token));
        DescribeInstanceBill(p)
    }

    /// Set the `MaxResults` parameter.
    pub fn set_max_resutls(self, max_resutls: &str) -> (r: Self)
        ensures
            r.spec_params() == spec_insert_pair(self.spec_params(), "MaxResults"@, max_resutls@),
    {
        proof {
            use_type_invariant(&self);
        }
        let DescribeInstanceBill(mut p) = self;
        insert_param(&mut p, "MaxResults", String::from_str(max_resutls));
        DescribeInstanceBill(p)
    }
}

impl Api for DescribeInstanceBill {
    open spec fn spec_name(&self) -> Seq<char> {
        "DescribeInstanceBill"@
    }

    open spec fn spec_host() -> Seq<char> {
        "business.aliyuncs.com"@
    }

    open spec fn spec_version() -> Seq<char> {
        "2017-12-14"@
    }

    open spec fn spec_default_params() -> Seq<(Seq<char>, Seq<char>)> {
        Seq::empty()
    }

    closed spec fn spec_params(&self) -> Seq<(Seq<char>, Seq<char>)> {
        entries_of(self.0)
    }

    open spec fn spec_descriptor(&self, date: Seq<char>, nonce: Seq<char>) -> RequestHeaderView {
        RequestHeaderView {
            method: "GET"@,
            uri: "/"@,
            host: Self::spec_host(),
            headers: spec_initial_headers(
                Self::spec_host(),
                self.spec_name(),
                Self::spec_version(),
                date,
                nonce,
            ),
            query: self.spec_params(),
            body: Seq::<char>::empty(),
        }
    }

    fn new() -> (r: Self) {
        let mut p = params_new();
        DescribeInstanceBill(p)
    }

    fn name(&self) -> (r: String) {
        String::from_str("DescribeInstanceBill")
    }

    fn canonical_request(self) -> (r: RequestHeader) {
        proof {
            use_type_invariant(&self);
        }
        let ghost me = self;
        let action = self.name();
        let DescribeInstanceBill(p) = self;
        let r = RequestHeader::new(
            String::from_str("business.aliyuncs.com"),
            action,
            String::from_str("2017-12-14"),
            p,
        );
        proof {
            let (d, n2): (Seq<char>, Seq<char>) = choose|d: Seq<char>, n2: Seq<char>|
                r@.headers == #[trigger] spec_initial_headers(
                    "business.aliyuncs.com"@,
                    "DescribeInstanceBill"@,
                    "2017-12-14"@,
                    d,
                    n2,
                );
            assert(r@ =~= me.spec_descriptor(d, n2));
        }
        r
    }
}

} // verus!
