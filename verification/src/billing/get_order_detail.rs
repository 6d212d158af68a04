use crate::params::{entries_of, entries_sorted, insert_param, params_new, spec_insert_pair};
use crate::sign::{spec_initial_headers, Api, RequestHeader, RequestHeaderView};
use ordermap::OrderMap;
use vstd::prelude::*;

verus! {

/// Details of one order.
#[derive(Debug)]
pub struct GetOrderDetail(OrderMap<String, String>);

impl GetOrderDetail {
    #[verifier::type_invariant]
    closed spec fn wf(self) -> bool {
        entries_sorted(entries_of(self.0))
    }

    /// Set the `OrderId` parameter.
    pub fn set_order_id(self, order_id: &str) -> (r: Self)
        ensures
            r.spec_params() == spec_insert_pair(self.spec_params(), "OrderId"@, order_id@),
    {
        proof {
            use_type_invariant(&self);
        }
        let GetOrderDetail(mut p) = self;
        insert_param(&mut p, "OrderId", String::from_str(order_id));
        GetOrderDetail(p)
    }
}

impl Api for GetOrderDetail {
    open spec fn spec_name(&self) -> Seq<char> {
        "GetOrderDetail"@
    }

    open spec fn spec_host() -> Seq<char> {
        "business.aliyuncs.com"@
    }

    open spec fn spec_version() -> Seq<char> {
        "2017-12-14"@
    }

    open spec fn spec_default_params() -> Seq<(Seq<char>, Seq<char>)> {
        Seq::empty()
    }

    closed spec fn spec_params(&self) -> Seq<(Seq<char>, Seq<char>)> {
        entries_of(self.0)
    }

    open spec fn spec_descriptor(&self, date: Seq<char>, nonce: Seq<char>) -> RequestHeaderView {
        RequestHeaderView {
            method: "GET"@,
            uri: "/"@,
            host: Self::spec_host(),
            headers: spec_initial_headers(
                Self::spec_host(),
                self.spec_name(),
                Self::spec_version(),
                date,
                nonce,
            ),
            query: self.spec_params(),
            body: Seq::<char>::empty(),
        }
    }

    fn new() -> (r: Self) {
        let mut p = params_new();
        GetOrderDetail(p)
    }

    fn name(&self) -> (r: String) {
        String::from_str("GetOrderDetail")
    }

    fn canonical_request(self) -> (r: RequestHeader) {
        proof {
            use_type_invariant(&self);
        }
        let ghost me = self;
        let action = self.name();
        let GetOrderDetail(p) = self;
        let r = RequestHeader::new(
            String::from_str("business.aliyuncs.com"),
            action,
            String::from_str("2017-12-14"),
            p,
        );
        proof {
            let (d, n2): (Seq<char>, Seq<char>) = choose|d: Seq<char>, n2: Seq<char>|
                r@.headers == #[trigger] spec_initial_headers(
                    "business.aliyuncs.com"@,
                    "GetOrderDetail"@,
                    "2017-12-14"@,
                    d,
                    n2,
                );
            assert(r@ =~= me.spec_descriptor(d, n2));
        }
        r
    }
}

/// Discount details of one order.
#[derive(Debug, Clone)]
pub struct ExtendInfos {
    pub discount_amount: String,
}

/// The module configuration of one order.
#[derive(Debug, Clone)]
pub struct OriginalModuleConfig {
    pub original_module_config: Vec<OriginalModuleConfigElement>,
}

/// One configured module.
#[derive(Debug, Clone)]
pub struct OriginalModuleConfigElement {
    pub module_properties: ModuleProperties,
    pub code: String,
    pub name: String,
}

/// The properties of one module.
#[derive(Debug, Clone)]
pub struct ModuleProperties {
    pub module_properties: Vec<ModuleProperty>,
}

/// One module property.
#[derive(Debug, Clone)]
pub struct ModuleProperty {
    pub value: String,
    pub name: String,
}

} // verus!
