use crate::params::{entries_of, entries_sorted, insert_param, params_new, spec_insert_pair};
use crate::sign::{spec_initial_headers, Api, RequestHeader, RequestHeaderView};
use ordermap::OrderMap;
use vstd::prelude::*;

verus! {

/// Results of synthetic monitoring dial tests.
#[derive(Debug)]
pub struct ListSyntheticDetail(OrderMap<String, String>);

impl ListSyntheticDetail {
    #[verifier::type_invariant]
    closed spec fn wf(self) -> bool {
        entries_sorted(entries_of(self.0))
    }

    /// Set the `RegionID` parameter.
    pub fn set_region_id(self, region_id: &str) -> (r: Self)
        ensures
            r.spec_params() == spec_insert_pair(self.spec_params(), "RegionID"@, region_id@),
    {
        proof {
            use_type_invariant(&self);
        }
        let ListSyntheticDetail(mut p) = self;
        insert_param(&mut p, "RegionID", String::from_str(region_id));
        ListSyntheticDetail(p)
    }

    /// Set the `SyntheticType` parameter.
    pub fn set_synthetic_type(self, synthetic_type: &str) -> (r: Self)
        ensures
            r.spec_params() == spec_insert_pair(self.spec_params(), "SyntheticType"@, synthetic_type@),
    {
        proof {
            use_type_invariant(&self);
        }
        let ListSyntheticDetail(mut p) = self;
        insert_param(&mut p, "SyntheticType", String::from_str(synthetic_type));
        ListSyntheticDetail(p)
    }

    /// Set the `Category` parameter.
    pub fn set_category(self, category: &str) -> (r: Self)
        ensures
            r.spec_params() == spec_insert_pair(self.spec_params(), "Category"@, category@),
    {
        proof {
            use_type_invariant(&self);
        }
        let ListSyntheticDetail(mut p) = self;
        insert_param(&mut p, "Category", String::from_str(category));
        ListSyntheticDetail(p)
    }

    /// Set the `Detail` parameter.
    pub fn set_detail(self, detail: &str) -> (r: Self)
        ensures
            r.spec_params() == spec_insert_pair(self.spec_params(), "Detail"@, detail@),
    {
        proof {
            use_type_invariant(&self);
        }
        let ListSyntheticDetail(mut p) = self;
        insert_param(&mut p, "Detail", String::from_str(detail));
        ListSyntheticDetail(p)
    }

    /// Set the `StartTime` parameter.
    pub fn set_start_time(self, start_time: &str) -> (r: Self)
        ensures
            r.spec_params() == spec_insert_pair(self.spec_params(), "StartTime"@, start_time@),
    {
        proof {
            use_type_invariant(&self);
        }
        let ListSyntheticDetail(mut p) = self;
        insert_param(&mut p, "StartTime", String::from_str(start_time));
        ListSyntheticDetail(p)
    }

    /// Set the `EndTime` parameter.
    pub fn set_end_time(self, end_time: &str) -> (r: Self)
        ensures
            r.spec_params() == spec_insert_pair(self.spec_params(), "EndTime"@, end_time@),
    {
        proof {
            use_type_invariant(&self);
        }
        let ListSyntheticDetail(mut p) = self;
        insert_param(&mut p, "EndTime", String::from_str(end_time));
        ListSyntheticDetail(p)
    }

    /// Set the `OrderBy` parameter.
    pub fn set_order_by(self, order_by: &str) -> (r: Self)
        ensures
            r.spec_params() == spec_insert_pair(self.spec_params(), "OrderBy"@, order_by@),
    {
        proof {
            use_type_invariant(&self);
        }
        let ListSyntheticDetail(mut p) = self;
        insert_param(&mut p, "OrderBy", String::from_str(order_by));
        ListSyntheticDetail(p)
    }

    /// Set the `Order` parameter.
    pub fn set_order(self, order: &str) -> (r: Self)
        ensures
            r.spec_params() == spec_insert_pair(self.spec_params(), "Order"@, order@),
    {
        proof {
            use_type_invariant(&self);
        }
        let ListSyntheticDetail(mut p) = self;
        insert_param(&mut p, "Order", String::from_str(order));
        ListSyntheticDetail(p)
    }

    /// Set the `Page` parameter.
    pub fn set_page(self, page: &str) -> (r: Self)
        ensures
            r.spec_params() == spec_insert_pair(self.spec_params(), "Page"@, page@),
    {
        proof {
            use_type_invariant(&self);
        }
        let ListSyntheticDetail(mut p) = self;
        insert_param(&mut p, "Page", String::from_str(page));
        ListSyntheticDetail(p)
    }

    /// Set the `PageSize` parameter.
    pub fn set_page_size(self, page_size: &str) -> (r: Self)
        ensures
            r.spec_params() == spec_insert_pair(self.spec_params(), "PageSize"@, page_size@),
    {
        proof {
            use_type_invariant(&self);
        }
        let ListSyntheticDetail(mut p) = self;
        insert_param(&mut p, "PageSize", String::from_str(page_size));
        ListSyntheticDetail(p)
    }

    /// Set the `Filters` parameter to select one task's results.
    pub fn set_filters(self, task_id: &str) -> (r: Self)
        ensures
            r.spec_params() == spec_insert_pair(
                self.spec_params(),
                "Filters"@,
                "{\"taskId\": \""@ + task_id@ + "\"}"@,
            ),
    {
        proof {
            use_type_invariant(&self);
        }
        let mut filter = String::from_str("{\"taskId\": \"");
        filter.append(task_id);
        filter.append("\"}");
        let ListSyntheticDetail(mut p) = self;
        insert_param(&mut p, "Filters", filter);
        ListSyntheticDetail(p)
    }

    /// Set the advanced filter array from one key, operator and value.
    pub fn set_advanced_filters(self, key: &str, op: &str, value: &str) -> (r: Self)
        ensures
            r.spec_params() == spec_insert_pair(
                self.spec_params(),
                ""@,
                "[{\"Key\":\""@ + key@ + "\",\"OpType\":\""@ + op@ + "\",\"Value\":\""@
                    + value@ + "\"}]"@,
            ),
    {
        proof {
            use_type_invariant(&self);
        }
        let mut filters = String::from_str("[{\"Key\":\"");
        filters.append(key);
        filters.append("\",\"OpType\":\"");
        filters.append(op);
        filters.append("\",\"Value\":\"");
        filters.append(value);
        filters.append("\"}]");
        let ListSyntheticDetail(mut p) = self;
        insert_param(&mut p, "", filters);
        ListSyntheticDetail(p)
    }
}

impl Api for ListSyntheticDetail {
    open spec fn spec_name(&self) -> Seq<char> {
        "ListSyntheticDetail"@
    }

    open spec fn spec_host() -> Seq<char> {
        "arms.cn-hangzhou.aliyuncs.com"@
    }

    open spec fn spec_version() -> Seq<char> {
        "2019-08-08"@
    }

    open spec fn spec_default_params() -> Seq<(Seq<char>, Seq<char>)> {
        spec_insert_pair(spec_insert_pair(spec_insert_pair(Seq::empty(), "PageSize"@, "300"@), "RegionId"@, "cn-hangzhou"@), "Category"@, "SYNTHETIC"@)
    }

    closed spec fn spec_params(&self) -> Seq<(Seq<char>, Seq<char>)> {
        entries_of(self.0)
    }

    open spec fn spec_descriptor(&self, date: Seq<char>, nonce: Seq<char>) -> RequestHeaderView {
        RequestHeaderView {
            method: "GET"@,
            uri: "/"@,
            host: Self::spec_host(),
            headers: spec_initial_headers(
                Self::spec_host(),
                self.spec_name(),
                Self::spec_version(),
                date,
                nonce,
            ),
            query: self.spec_params(),
            body: Seq::<char>::empty(),
        }
    }

    fn new() -> (r: Self) {
        let mut p = params_new();
        insert_param(&mut p, "PageSize", String::from_str("300"));
        insert_param(&mut p, "RegionId", String::from_str("cn-hangzhou"));
        insert_param(&mut p, "Category", String::from_str("SYNTHETIC"));
        ListSyntheticDetail(p)
    }

    fn name(&self) -> (r: String) {
        String::from_str("ListSyntheticDetail")
    }

    fn canonical_request(self) -> (r: RequestHeader) {
        proof {
            use_type_invariant(&self);
        }
        let ghost me = self;
        let action = self.name();
        let ListSyntheticDetail(p) = self;
        let r = RequestHeader::new(
            String::from_str("arms.cn-hangzhou.aliyuncs.com"),
            action,
            String::from_str("2019-08-08"),
            p,
        );
        proof {
            let (d, n2): (Seq<char>, Seq<char>) = choose|d: Seq<char>, n2: Seq<char>|
                r@.headers == #[trigger] spec_initial_headers(
                    "arms.cn-hangzhou.aliyuncs.com"@,
                    "ListSyntheticDetail"@,
                    "2019-08-08"@,
                    d,
                    n2,
                );
            assert(r@ =~= me.spec_descriptor(d, n2));
        }
        r
    }
}

} // verus!
