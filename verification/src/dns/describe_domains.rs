use crate::params::{entries_of, entries_sorted, insert_param, params_new, spec_insert_pair};
use crate::sign::{spec_initial_headers, Api, RequestHeader, RequestHeaderView};
use crate::text::map_upper;
use ordermap::OrderMap;
use vstd::prelude::*;

verus! {

/// List the account's domains.
#[derive(Debug)]
pub struct DescribeDomains(OrderMap<String, String>);

impl DescribeDomains {
    #[verifier::type_invariant]
    closed spec fn wf(self) -> bool {
        entries_sorted(entries_of(self.0))
    }
}

impl Api for DescribeDomains {
    open spec fn spec_name(&self) -> Seq<char> {
        "DescribeDomains"@
    }

    open spec fn spec_host() -> Seq<char> {
        "alidns.cn-hangzhou.aliyuncs.com"@
    }

    open spec fn spec_version() -> Seq<char> {
        "2015-01-09"@
    }

    open spec fn spec_default_params() -> Seq<(Seq<char>, Seq<char>)> {
        spec_insert_pair(Seq::empty(), "PageSize"@, "100"@)
    }

    closed spec fn spec_params(&self) -> Seq<(Seq<char>, Seq<char>)> {
        entries_of(self.0)
    }

    open spec fn spec_descriptor(&self, date: Seq<char>, nonce: Seq<char>) -> RequestHeaderView {
        RequestHeaderView {
            method: "POST"@,
            uri: "/"@,
            host: Self::spec_host(),
            headers: spec_initial_headers(
                Self::spec_host(),
                self.spec_name(),
                Self::spec_version(),
                date,
                nonce,
            ),
            query: self.spec_params(),
            body: Seq::<char>::empty(),
        }
    }

    fn new() -> (r: Self) {
        let mut p = params_new();
        insert_param(&mut p, "PageSize", String::from_str("100"));
        DescribeDomains(p)
    }

    fn name(&self) -> (r: String) {
        String::from_str("DescribeDomains")
    }

    fn canonical_request(self) -> (r: RequestHeader) {
        proof {
            use_type_invariant(&self);
        }
        let ghost me = self;
        let action = self.name();
        let DescribeDomains(p) = self;
        let r0 = RequestHeader::new(
            String::from_str("alidns.cn-hangzhou.aliyuncs.com"),
            action,
            String::from_str("2015-01-09"),
            p,
        );
        let r = r0.set_method("POST");
        proof {
            let (d, n2): (Seq<char>, Seq<char>) = choose|d: Seq<char>, n2: Seq<char>|
                r0@.headers == #[trigger] spec_initial_headers(
                    "alidns.cn-hangzhou.aliyuncs.com"@,
                    "DescribeDomains"@,
                    "2015-01-09"@,
                    d,
                    n2,
                );
            reveal_strlit("POST");
            assert(map_upper("POST"@) =~= "POST"@);
            assert(r@ =~= me.spec_descriptor(d, n2));
        }
        r
    }
}

/// The name servers of one domain.
#[derive(Default, Debug, Clone, PartialEq)]
pub struct DnsServers {
    pub dns_server: Vec<String>,
}

} // verus!
