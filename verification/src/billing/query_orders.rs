use crate::params::{entries_of, entries_sorted, insert_param, params_new, spec_insert_pair};
use crate::sign::{spec_initial_headers, Api, RequestHeader, RequestHeaderView};
use ordermap::OrderMap;
use vstd::prelude::*;

verus! {

/// Query the account's orders.
#[derive(Debug)]
pub struct QueryOrders(OrderMap<String, String>);

impl QueryOrders {
    #[verifier::type_invariant]
    closed spec fn wf(self) -> bool {
        entries_sorted(entries_of(self.0))
    }

    /// Set the `CreateTimeEnd` parameter.
    pub fn set_create_time_end(self, create_time_end: &str) -> (r: Self)
        ensures
            r.spec_params() == spec_insert_pair(self.spec_params(), "CreateTimeEnd"@, create_time_end@),
    {
        proof {
            use_type_invariant(&self);
        }
        let QueryOrders(mut p) = self;
        insert_param(&mut p, "CreateTimeEnd", String::from_str(create_time_end));
        QueryOrders(p)
    }

    /// Set the `ProdCode` parameter.
    pub fn set_prod_code(self, prod_code: &str) -> (r: Self)
        ensures
            r.spec_params() == spec_insert_pair(self.spec_params(), "ProdCode"@, prod_code@),
    {
        proof {
            use_type_invariant(&self);
        }
        let QueryOrders(mut p) = self;
        insert_param(&mut p, "ProdCode", String::from_str(prod_code));
        QueryOrders(p)
    }

    /// Set the `CreateTimeStart` parameter.
    pub fn set_create_time_start(self, create_time_start: &str) -> (r: Self)
        ensures
            r.spec_params() == spec_insert_pair(self.spec_params(), "CreateTimeStart"@, create_time_start@),
    {
        proof {
            use_type_invariant(&self);
        }
        let QueryOrders(mut p) = self;
        insert_param(&mut p, "CreateTimeStart", String::from_str(create_time_start));
        QueryOrders(p)
    }

    /// Set the `PageNum` parameter.
    pub fn set_page_num(self, page_num: &str) -> (r: Self)
        ensures
            r.spec_params() == spec_insert_pair(self.spec_params(), "PageNum"@, page_num@),
    {
        proof {
            use_type_invariant(&self);
        }
        let QueryOrders(mut p) = self;
        insert_param(&mut p, "PageNum", String::from_str(page_num));
        QueryOrders(p)
    }

    /// Set the `PageSize` parameter.
    pub fn set_page_size(self, page_size: &str) -> (r: Self)
        ensures
            r.spec_params() == spec_insert_pair(self.spec_params(), "PageSize"@, page_size@),
    {
        proof {
            use_type_invariant(&self);
        }
        let QueryOrders(mut p) = self;
        insert_param(&mut p, "PageSize", String::from_str(page_size));
        QueryOrders(p)
    }

    /// Set the `ProductType` parameter.
    pub fn set_product_type(self, product_type: &str) -> (r: Self)
        ensures
            r.spec_params() == spec_insert_pair(self.spec_params(), "ProductType"@, product_type@),
    {
        proof {
            use_type_invariant(&self);
        }
        let QueryOrders(mut p) = self;
        insert_param(&mut p, "ProductType", String::from_str(product_type));
        QueryOrders(p)
    }

    /// Set the `SubscriptionType` parameter.
    pub fn set_subscription_type(self, subscription_type: &str) -> (r: Self)
        ensures
            r.spec_params() == spec_insert_pair(self.spec_params(), "SubscriptionType"@, subscription_type@),
    {
        proof {
            use_type_invariant(&self);
        }
        let QueryOrders(mut p) = self;
        insert_param(&mut p, "SubscriptionType", String::from_str(subscription_type));
        QueryOrders(p)
    }

    /// Set the `PaymentStatus` parameter.
    pub fn set_payment_status(self, payment_status: &str) -> (r: Self)
        ensures
            r.spec_params() == spec_insert_pair(self.spec_params(), "PaymentStatus"@, payment_status@),
    {
        proof {
            use_type_invariant(&self);
        }
        let QueryOrders(mut p) = self;
        insert_param(&mut p, "PaymentStatus", String::from_str(payment_status));
        QueryOrders(p)
    }

    /// Set the `OrderType` parameter.
    pub fn set_order_type(self, order_type: &str) -> (r: Self)
        ensures
            r.spec_params() == spec_insert_pair(self.spec_params(), "OrderType"@, order_type@),
    {
        proof {
            use_type_invariant(&self);
        }
        let QueryOrders(mut p) = self;
        insert_param(&mut p, "OrderType", String::from_str(order_type));
        QueryOrders(p)
    }
}

impl Api for QueryOrders {
    open spec fn spec_name(&self) -> Seq<char> {
        "QueryOrders"@
    }

    open spec fn spec_host() -> Seq<char> {
        "business.aliyuncs.com"@
    }

    open spec fn spec_version() -> Seq<char> {
        "2017-12-14"@
    }

    open spec fn spec_default_params() -> Seq<(Seq<char>, Seq<char>)> {
        Seq::empty()
    }

    closed spec fn spec_params(&self) -> Seq<(Seq<char>, Seq<char>)> {
        entries_of(self.0)
    }

    open spec fn spec_descriptor(&self, date: Seq<char>, nonce: Seq<char>) -> RequestHeaderView {
        RequestHeaderView {
            method: "GET"@,
            uri: "/"@,
            host: Self::spec_host(),
            headers: spec_initial_headers(
                Self::spec_host(),
                self.spec_name(),
                Self::spec_version(),
                date,
                nonce,
            ),
            query: self.spec_params(),
            body: Seq::<char>::empty(),
        }
    }

    fn new() -> (r: Self) {
        let mut p = params_new();
        QueryOrders(p)
    }

    fn name(&self) -> (r: String) {
        String::from_str("QueryOrders")
    }

    fn canonical_request(self) -> (r: RequestHeader) {
        proof {
            use_type_invariant(&self);
        }
        let ghost me = self;
        let action = self.name();
        let QueryOrders(p) = self;
        let r = RequestHeader::new(
            String::from_str("business.aliyuncs.com"),
            action,
            String::from_str("2017-12-14"),
            p,
        );
        proof {
            let (d, n2): (Seq<char>, Seq<char>) = choose|d: Seq<char>, n2: Seq<char>|
                r@.headers == #[trigger] spec_initial_headers(
                    "business.aliyuncs.com"@,
                    "QueryOrders"@,
                    "2017-12-14"@,
                    d,
                    n2,
                );
            assert(r@ =~= me.spec_descriptor(d, n2));
        }
        r
    }
}

} // verus!
